use sql_decompose::label::window_label;

#[test]
fn window_label_is_prefix_plus_digest() {
    assert_eq!(window_label("x"), "select_9dd4e461268c8034f5c8564e155c67a6");
    assert_eq!(window_label("SELECT 1"), "select_b1698e52a0f16203489454196a0c6307");
}

#[test]
fn equal_statements_share_a_label_and_different_ones_do_not() {
    assert_eq!(window_label("SELECT a FROM t"), window_label("SELECT a FROM t"));
    assert_ne!(window_label("SELECT a FROM t"), window_label("SELECT b FROM t"));
}
