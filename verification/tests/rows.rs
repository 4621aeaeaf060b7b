use sql_decompose::model::{parse_db_kind, DbKind};
use sql_decompose::rows::{
    column_list, materialize_row, mysql_type_kind, postgres_type_kind, Cell, TypeKind,
};

#[test]
fn postgres_type_names_map_to_their_extractions() {
    assert_eq!(postgres_type_kind("FLOAT4"), TypeKind::Float4);
    assert_eq!(postgres_type_kind("FLOAT8"), TypeKind::Float8);
    assert_eq!(postgres_type_kind("NUMERIC"), TypeKind::Decimal);
    assert_eq!(postgres_type_kind("BOOL"), TypeKind::Bool);
    assert_eq!(postgres_type_kind("INT1"), TypeKind::Int1);
    assert_eq!(postgres_type_kind("INT2"), TypeKind::Int2);
    assert_eq!(postgres_type_kind("INT4"), TypeKind::Int4);
    assert_eq!(postgres_type_kind("INT8"), TypeKind::Int8);
    assert_eq!(postgres_type_kind("CHAR"), TypeKind::Text);
    assert_eq!(postgres_type_kind("VARCHAR"), TypeKind::Text);
    assert_eq!(postgres_type_kind("TEXT"), TypeKind::Text);
    assert_eq!(postgres_type_kind("DATE"), TypeKind::Date);
    assert_eq!(postgres_type_kind("JSONB"), TypeKind::Unknown);
}

#[test]
fn mysql_type_names_map_to_their_extractions() {
    assert_eq!(mysql_type_kind("FLOAT4"), TypeKind::Float4);
    assert_eq!(mysql_type_kind("FLOAT8"), TypeKind::Float8);
    assert_eq!(mysql_type_kind("DECIMAL"), TypeKind::Decimal);
    assert_eq!(mysql_type_kind("BOOL"), TypeKind::Bool);
    assert_eq!(mysql_type_kind("INT1"), TypeKind::Int1);
    assert_eq!(mysql_type_kind("SMALLINT"), TypeKind::Int2);
    assert_eq!(mysql_type_kind("INT"), TypeKind::Int4);
    assert_eq!(mysql_type_kind("BIGINT"), TypeKind::Int8);
    assert_eq!(mysql_type_kind("CHAR"), TypeKind::Text);
    assert_eq!(mysql_type_kind("VARCHAR"), TypeKind::Text);
    assert_eq!(mysql_type_kind("TEXT"), TypeKind::Text);
    assert_eq!(mysql_type_kind("DATE"), TypeKind::Date);
    assert_eq!(mysql_type_kind("ENUM"), TypeKind::Unknown);
    // The two drivers disagree on integer names; the classifiers keep them
    // apart.
    assert_eq!(mysql_type_kind("INT2"), TypeKind::Unknown);
    assert_eq!(postgres_type_kind("SMALLINT"), TypeKind::Unknown);
}

#[test]
fn rows_display_extracted_values_null_fallback_and_omission() {
    let cells = vec![
        Cell { name: "a".to_string(), recognized: true, value: Some("42".to_string()) },
        Cell { name: "b".to_string(), recognized: true, value: None },
        Cell { name: "c".to_string(), recognized: false, value: None },
        Cell { name: "d".to_string(), recognized: true, value: Some("x".to_string()) },
    ];
    let row = materialize_row(&cells);
    assert_eq!(
        row,
        vec![
            ("a".to_string(), "42".to_string()),
            ("b".to_string(), "NULL".to_string()),
            ("d".to_string(), "x".to_string()),
        ]
    );
}

#[test]
fn empty_row_displays_empty() {
    let row = materialize_row(&vec![]);
    assert_eq!(row, Vec::<(String, String)>::new());
}

#[test]
fn column_list_numbers_names_in_order() {
    let names = vec!["id".to_string(), "name".to_string()];
    let cols = column_list(&names);
    assert_eq!(cols.len(), 2);
    assert_eq!(cols[0].ordinal, 0);
    assert_eq!(cols[0].name, "id");
    assert_eq!(cols[1].ordinal, 1);
    assert_eq!(cols[1].name, "name");
}

#[test]
fn database_kind_names_are_recognized() {
    assert_eq!(parse_db_kind("postgres"), Some(DbKind::Postgres));
    assert_eq!(parse_db_kind("mysql"), Some(DbKind::MySql));
    assert_eq!(parse_db_kind("sqlite"), None);
    assert_eq!(parse_db_kind("Postgres"), None);
}
