use sql_decompose::ast::{
    Cte, Expr, Fetch, Function, FunctionArg, FunctionArgExpr, FunctionArguments,
    FunctionArgumentList, GroupByExpr, Join, JoinConstraint, JoinOperator, OrderBy, OrderByExpr,
    Query, Select, SelectItem, SetExpr, Statement, TableFactor, TableWithJoins, With,
};
use sql_decompose::walk::find_select_statement;

use sqlparser::dialect::PostgreSqlDialect;
use sqlparser::parser::Parser;

fn sel(text: &str) -> Select {
    Select {
        text: text.to_string(),
        distinct: None,
        top: None,
        projection: vec![],
        from: vec![],
        lateral_views: vec![],
        prewhere: None,
        selection: None,
        group_by: GroupByExpr::Expressions(vec![]),
        cluster_by: vec![],
        distribute_by: vec![],
        sort_by: vec![],
        having: None,
        named_window: vec![],
        qualify: None,
        connect_by: None,
    }
}

fn plain_query(body: SetExpr) -> Query {
    Query {
        with: None,
        body: Box::new(body),
        order_by: None,
        limit: None,
        limit_by: vec![],
        offset: None,
        fetch: None,
    }
}

fn query_of_select(s: Select) -> Query {
    plain_query(SetExpr::Select(Box::new(s)))
}

fn stmt(q: Query) -> Statement {
    Statement::Query(Box::new(q))
}

fn plain_table() -> TableFactor {
    TableFactor::Table { args: None, with_hints: vec![], version: None }
}

fn from_item(relation: TableFactor) -> TableWithJoins {
    TableWithJoins { relation, joins: vec![] }
}

#[test]
fn flat_select_decomposes_to_itself() {
    let statements = vec![stmt(query_of_select(sel("SELECT 1")))];
    let (withs, selects) = find_select_statement(&statements);
    assert_eq!(withs, Vec::<String>::new());
    assert_eq!(selects, vec!["SELECT 1".to_string()]);
}

#[test]
fn derived_table_yields_outer_then_inner() {
    let inner = query_of_select(sel("SELECT a FROM t"));
    let mut outer = sel("SELECT * FROM (SELECT a FROM t) AS sub");
    outer.projection = vec![SelectItem::Wildcard];
    outer.from = vec![from_item(TableFactor::Derived { subquery: Box::new(inner) })];
    let statements = vec![stmt(query_of_select(outer))];
    let (withs, selects) = find_select_statement(&statements);
    assert_eq!(withs, Vec::<String>::new());
    assert_eq!(
        selects,
        vec!["SELECT * FROM (SELECT a FROM t) AS sub".to_string(), "SELECT a FROM t".to_string()]
    );
}

#[test]
fn embedded_texts_match_the_parsers_canonical_form() {
    // The texts the walk records are the parser's own serializations; the
    // literals used throughout these tests are exactly those.
    let sql = "SELECT * FROM (SELECT a FROM t) AS sub";
    let parsed = Parser::parse_sql(&PostgreSqlDialect {}, sql).unwrap();
    assert_eq!(parsed.len(), 1);
    assert_eq!(parsed[0].to_string(), sql);
    match &parsed[0] {
        sqlparser::ast::Statement::Query(q) => match &*q.body {
            sqlparser::ast::SetExpr::Select(s) => {
                assert_eq!(s.to_string(), sql);
                match &s.from[0].relation {
                    sqlparser::ast::TableFactor::Derived { subquery, .. } => {
                        assert_eq!(subquery.to_string(), "SELECT a FROM t");
                    }
                    other => panic!("unexpected relation: {:?}", other),
                }
            }
            other => panic!("unexpected body: {:?}", other),
        },
        other => panic!("unexpected statement: {:?}", other),
    }
}

#[test]
fn union_branches_come_left_then_right() {
    let body = SetExpr::SetOperation {
        left: Box::new(SetExpr::Select(Box::new(sel("SELECT a FROM t1")))),
        right: Box::new(SetExpr::Select(Box::new(sel("SELECT b FROM t2")))),
    };
    let statements = vec![stmt(plain_query(body))];
    let (withs, selects) = find_select_statement(&statements);
    assert_eq!(withs, Vec::<String>::new());
    assert_eq!(selects, vec!["SELECT a FROM t1".to_string(), "SELECT b FROM t2".to_string()]);
}

#[test]
fn cte_query_yields_with_text_and_prefixed_outer_select() {
    let with = With {
        text: "WITH cte AS (SELECT 1)".to_string(),
        cte_tables: vec![Cte { query: Box::new(query_of_select(sel("SELECT 1"))) }],
    };
    let mut q = query_of_select(sel("SELECT a FROM cte"));
    q.with = Some(with);
    let statements = vec![stmt(q)];
    let (withs, selects) = find_select_statement(&statements);
    assert_eq!(withs, vec!["WITH cte AS (SELECT 1)".to_string()]);
    assert_eq!(
        selects,
        vec![
            "SELECT 1".to_string(),
            "WITH cte AS (SELECT 1) SELECT a FROM cte".to_string(),
        ]
    );
    // The prefixed statement is standalone valid SQL.
    let reparsed = Parser::parse_sql(&PostgreSqlDialect {}, &selects[1]);
    assert!(reparsed.is_ok());
    assert_eq!(reparsed.unwrap()[0].to_string(), selects[1]);
}

#[test]
fn in_subquery_in_where_yields_inner_unprefixed() {
    let inner = query_of_select(sel("SELECT y FROM u"));
    let mut outer = sel("SELECT * FROM t WHERE x IN (SELECT y FROM u)");
    outer.projection = vec![SelectItem::Wildcard];
    outer.from = vec![from_item(plain_table())];
    outer.selection = Some(Expr::InSubquery {
        expr: Box::new(Expr::Leaf),
        subquery: Box::new(inner),
    });
    let statements = vec![stmt(query_of_select(outer))];
    let (withs, selects) = find_select_statement(&statements);
    assert_eq!(withs, Vec::<String>::new());
    // The inner SELECT is runnable on its own, with no trace of the outer
    // query's FROM and no WITH prefix.
    assert_eq!(
        selects,
        vec![
            "SELECT * FROM t WHERE x IN (SELECT y FROM u)".to_string(),
            "SELECT y FROM u".to_string(),
        ]
    );
}

#[test]
fn left_join_on_subquery_is_discovered() {
    let inner = query_of_select(sel("SELECT id FROM t3"));
    let on = JoinConstraint::On(Expr::InSubquery {
        expr: Box::new(Expr::Leaf),
        subquery: Box::new(inner),
    });
    let mut outer = sel("SELECT * FROM t1 LEFT JOIN t2 ON t1.id IN (SELECT id FROM t3)");
    outer.projection = vec![SelectItem::Wildcard];
    outer.from = vec![TableWithJoins {
        relation: plain_table(),
        joins: vec![Join { relation: plain_table(), join_operator: JoinOperator::LeftOuter(on) }],
    }];
    let statements = vec![stmt(query_of_select(outer))];
    let (_, selects) = find_select_statement(&statements);
    assert_eq!(
        selects,
        vec![
            "SELECT * FROM t1 LEFT JOIN t2 ON t1.id IN (SELECT id FROM t3)".to_string(),
            "SELECT id FROM t3".to_string(),
        ]
    );
}

#[test]
fn decomposing_an_extracted_flat_select_yields_it_alone() {
    // First extraction: outer and inner.
    let inner = query_of_select(sel("SELECT a FROM t"));
    let mut outer = sel("SELECT * FROM (SELECT a FROM t) AS sub");
    outer.projection = vec![SelectItem::Wildcard];
    outer.from = vec![from_item(TableFactor::Derived { subquery: Box::new(inner) })];
    let statements = vec![stmt(query_of_select(outer))];
    let (_, selects) = find_select_statement(&statements);
    let extracted = selects[1].clone();
    // The extracted text holds no further nesting: walking its tree returns
    // exactly the one statement again.
    let again = vec![stmt(query_of_select(sel(&extracted)))];
    let (withs2, selects2) = find_select_statement(&again);
    assert_eq!(withs2, Vec::<String>::new());
    assert_eq!(selects2, vec![extracted]);
}

#[test]
fn two_runs_over_the_same_tree_agree() {
    let mut outer = sel("SELECT * FROM t WHERE EXISTS (SELECT 1 FROM u)");
    outer.projection = vec![SelectItem::Wildcard];
    outer.from = vec![from_item(plain_table())];
    outer.selection = Some(Expr::Exists {
        subquery: Box::new(query_of_select(sel("SELECT 1 FROM u"))),
    });
    let statements = vec![stmt(query_of_select(outer))];
    let first = find_select_statement(&statements);
    let second = find_select_statement(&statements);
    assert_eq!(first, second);
    assert_eq!(
        first.1,
        vec![
            "SELECT * FROM t WHERE EXISTS (SELECT 1 FROM u)".to_string(),
            "SELECT 1 FROM u".to_string(),
        ]
    );
}

#[test]
fn malformed_input_is_a_parse_error_upstream() {
    // Decomposition fails only at the parse step: the dialect parser rejects
    // malformed text before any walking begins, so there is no tree to walk
    // and no empty success.
    let parsed = Parser::parse_sql(&PostgreSqlDialect {}, "SELECT FROM WHERE");
    assert!(parsed.is_err());
}

#[test]
fn non_query_statements_contribute_nothing() {
    let statements = vec![Statement::Other, stmt(query_of_select(sel("SELECT 1")))];
    let (withs, selects) = find_select_statement(&statements);
    assert_eq!(withs, Vec::<String>::new());
    assert_eq!(selects, vec!["SELECT 1".to_string()]);
}

#[test]
fn nearest_enclosing_with_is_attached() {
    // Outer query: WITH c0 AS (SELECT 0) SELECT ... FROM (inner).
    // Inner derived query: WITH i AS (SELECT 2) SELECT x FROM i.
    let inner_with = With {
        text: "WITH i AS (SELECT 2)".to_string(),
        cte_tables: vec![Cte { query: Box::new(query_of_select(sel("SELECT 2"))) }],
    };
    let mut inner = query_of_select(sel("SELECT x FROM i"));
    inner.with = Some(inner_with);

    let outer_with = With {
        text: "WITH c0 AS (SELECT 0)".to_string(),
        cte_tables: vec![Cte { query: Box::new(query_of_select(sel("SELECT 0"))) }],
    };
    let mut outer_sel = sel("SELECT * FROM (WITH i AS (SELECT 2) SELECT x FROM i) AS d");
    outer_sel.projection = vec![SelectItem::Wildcard];
    outer_sel.from = vec![from_item(TableFactor::Derived { subquery: Box::new(inner) })];
    let mut outer = query_of_select(outer_sel);
    outer.with = Some(outer_with);

    let statements = vec![stmt(outer)];
    let (withs, selects) = find_select_statement(&statements);
    assert_eq!(
        withs,
        vec!["WITH c0 AS (SELECT 0)".to_string(), "WITH i AS (SELECT 2)".to_string()]
    );
    assert_eq!(
        selects,
        vec![
            // The outer WITH clause's own CTE body is in no WITH scope.
            "SELECT 0".to_string(),
            // The outer SELECT sits in the outer WITH clause's scope.
            "WITH c0 AS (SELECT 0) SELECT * FROM (WITH i AS (SELECT 2) SELECT x FROM i) AS d"
                .to_string(),
            // The inner WITH clause's own CTE body is in the outer scope.
            "WITH c0 AS (SELECT 0) SELECT 2".to_string(),
            // The inner SELECT keeps its nearest WITH clause, not the outer.
            "WITH i AS (SELECT 2) SELECT x FROM i".to_string(),
        ]
    );
}

#[test]
fn subquery_in_projection_is_discovered() {
    let mut outer = sel("SELECT (SELECT MAX(b) FROM u) FROM t");
    outer.projection = vec![SelectItem::UnnamedExpr(Expr::Subquery(Box::new(query_of_select(
        sel("SELECT MAX(b) FROM u"),
    ))))];
    outer.from = vec![from_item(plain_table())];
    let statements = vec![stmt(query_of_select(outer))];
    let (_, selects) = find_select_statement(&statements);
    assert_eq!(
        selects,
        vec![
            "SELECT (SELECT MAX(b) FROM u) FROM t".to_string(),
            "SELECT MAX(b) FROM u".to_string(),
        ]
    );
}

#[test]
fn subquery_in_function_argument_is_discovered() {
    let call = Function {
        parameters: FunctionArguments::NoArgs,
        args: FunctionArguments::List(FunctionArgumentList {
            args: vec![FunctionArg::Unnamed(FunctionArgExpr::Expr(Expr::Subquery(Box::new(
                query_of_select(sel("SELECT v FROM u")),
            ))))],
            clauses: vec![],
        }),
        filter: None,
        over: None,
        within_group: vec![],
    };
    let mut outer = sel("SELECT f((SELECT v FROM u)) FROM t");
    outer.projection = vec![SelectItem::UnnamedExpr(Expr::Function(call))];
    outer.from = vec![from_item(plain_table())];
    let statements = vec![stmt(query_of_select(outer))];
    let (_, selects) = find_select_statement(&statements);
    assert_eq!(
        selects,
        vec![
            "SELECT f((SELECT v FROM u)) FROM t".to_string(),
            "SELECT v FROM u".to_string(),
        ]
    );
}

#[test]
fn subqueries_in_trailing_clauses_are_discovered() {
    let mut q = query_of_select(sel("SELECT a FROM t"));
    q.order_by = Some(OrderBy {
        exprs: vec![OrderByExpr {
            expr: Expr::Subquery(Box::new(query_of_select(sel("SELECT o FROM u1")))),
            with_fill: None,
        }],
        interpolate: None,
    });
    q.limit = Some(Expr::Subquery(Box::new(query_of_select(sel("SELECT l FROM u2")))));
    q.fetch = Some(Fetch {
        quantity: Some(Expr::Subquery(Box::new(query_of_select(sel("SELECT f FROM u3"))))),
    });
    let statements = vec![stmt(q)];
    let (_, selects) = find_select_statement(&statements);
    assert_eq!(
        selects,
        vec![
            "SELECT a FROM t".to_string(),
            "SELECT o FROM u1".to_string(),
            "SELECT l FROM u2".to_string(),
            "SELECT f FROM u3".to_string(),
        ]
    );
}

#[test]
fn case_and_between_positions_are_discovered() {
    let case_expr = Expr::Case {
        operand: None,
        conditions: vec![Expr::Subquery(Box::new(query_of_select(sel("SELECT c FROM u1"))))],
        results: vec![Expr::Leaf],
        else_result: Some(Box::new(Expr::Subquery(Box::new(query_of_select(sel(
            "SELECT e FROM u2",
        )))))),
    };
    let between = Expr::Between {
        expr: Box::new(case_expr),
        low: Box::new(Expr::Subquery(Box::new(query_of_select(sel("SELECT lo FROM u3"))))),
        high: Box::new(Expr::Leaf),
    };
    let mut outer = sel("SELECT 1 FROM t WHERE ...");
    outer.from = vec![from_item(plain_table())];
    outer.selection = Some(between);
    let statements = vec![stmt(query_of_select(outer))];
    let (_, selects) = find_select_statement(&statements);
    assert_eq!(
        selects,
        vec![
            "SELECT 1 FROM t WHERE ...".to_string(),
            "SELECT c FROM u1".to_string(),
            "SELECT e FROM u2".to_string(),
            "SELECT lo FROM u3".to_string(),
        ]
    );
}
