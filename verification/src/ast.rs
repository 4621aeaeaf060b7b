//! The SQL query tree that decomposition walks.
//!
//! The tree holds exactly what the walk reads: the nesting structure of
//! queries, selects, table sources, joins and scalar expressions, and the
//! canonical serialized text of every SELECT block and WITH clause. Names,
//! operators, aliases and literal values play no part in discovering nested
//! SELECTs, so the tree does not carry them; positions that can never hold a
//! nested query appear as the `Leaf` expression. The caller builds this tree
//! from a SQL parser's output and serializes each SELECT block and WITH
//! clause with the parser's own pretty-printer, so every recorded text is
//! valid standalone SQL for its node.

use vstd::prelude::*;

verus! {

/// One top-level statement. Only query statements contribute to
/// decomposition; everything else (INSERT, UPDATE, DDL, ...) is `Other`.
pub enum Statement {
    Query(Box<Query>),
    Other,
}

/// A query: an optional WITH clause, a body, and trailing clauses whose
/// expressions may hide further subqueries.
pub struct Query {
    pub with: Option<With>,
    pub body: Box<SetExpr>,
    pub order_by: Option<OrderBy>,
    pub limit: Option<Expr>,
    pub limit_by: Vec<Expr>,
    pub offset: Option<Offset>,
    pub fetch: Option<Fetch>,
}

/// A WITH clause: its serialized text and its common table expressions.
pub struct With {
    pub text: String,
    pub cte_tables: Vec<Cte>,
}

/// One common table expression; its body is a full query.
pub struct Cte {
    pub query: Box<Query>,
}

/// A query body: a plain SELECT, a parenthesized query, or a set operation
/// (UNION / INTERSECT / EXCEPT). Bodies that cannot hold a SELECT (such as
/// VALUES lists) are `Other`.
pub enum SetExpr {
    Select(Box<Select>),
    Query(Box<Query>),
    SetOperation { left: Box<SetExpr>, right: Box<SetExpr> },
    Other,
}

/// One SELECT block: its own serialized text and every clause that can hold
/// an expression or a nested query.
pub struct Select {
    pub text: String,
    pub distinct: Option<Distinct>,
    pub top: Option<Top>,
    pub projection: Vec<SelectItem>,
    pub from: Vec<TableWithJoins>,
    pub lateral_views: Vec<LateralView>,
    pub prewhere: Option<Expr>,
    pub selection: Option<Expr>,
    pub group_by: GroupByExpr,
    pub cluster_by: Vec<Expr>,
    pub distribute_by: Vec<Expr>,
    pub sort_by: Vec<Expr>,
    pub having: Option<Expr>,
    pub named_window: Vec<NamedWindowDefinition>,
    pub qualify: Option<Expr>,
    pub connect_by: Option<ConnectBy>,
}

/// DISTINCT, either plain or `DISTINCT ON (expressions)`.
pub enum Distinct {
    Plain,
    On(Vec<Expr>),
}

/// A TOP clause; its quantity may be an expression.
pub struct Top {
    pub quantity: Option<TopQuantity>,
}

pub enum TopQuantity {
    Expr(Box<Expr>),
    Constant,
}

/// One projection item; aliases play no part in the walk.
pub enum SelectItem {
    UnnamedExpr(Expr),
    ExprWithAlias(Expr),
    Wildcard,
}

/// A LATERAL VIEW clause and its generating expression.
pub struct LateralView {
    pub lateral_view: Expr,
}

/// A GROUP BY clause: ALL, or a list of expressions.
pub enum GroupByExpr {
    All,
    Expressions(Vec<Expr>),
}

/// The WITH FILL modifier of an ORDER BY expression.
pub struct WithFill {
    pub from: Option<Expr>,
    pub to: Option<Expr>,
    pub step: Option<Expr>,
}

/// One ORDER BY expression with its optional WITH FILL modifier.
pub struct OrderByExpr {
    pub expr: Expr,
    pub with_fill: Option<WithFill>,
}

/// A window specification: PARTITION BY and ORDER BY expressions.
pub struct WindowSpec {
    pub partition_by: Vec<Expr>,
    pub order_by: Vec<OrderByExpr>,
}

/// A named window in the WINDOW clause: a specification or an alias.
pub enum NamedWindowExpr {
    WindowSpec(WindowSpec),
    NamedAlias,
}

/// One definition in the WINDOW clause; the defined name plays no part.
pub struct NamedWindowDefinition {
    pub window: NamedWindowExpr,
}

/// A CONNECT BY clause: the condition and the relationship expressions.
pub struct ConnectBy {
    pub condition: Expr,
    pub relationships: Vec<Expr>,
}

/// An ORDER BY clause with its optional INTERPOLATE part.
pub struct OrderBy {
    pub exprs: Vec<OrderByExpr>,
    pub interpolate: Option<Interpolate>,
}

pub struct Interpolate {
    pub exprs: Option<Vec<InterpolateExpr>>,
}

pub struct InterpolateExpr {
    pub expr: Option<Expr>,
}

/// An OFFSET clause; its value may be any expression.
pub struct Offset {
    pub value: Expr,
}

/// A FETCH clause; its quantity may be an expression.
pub struct Fetch {
    pub quantity: Option<Expr>,
}

/// A function call: parameters and arguments (either may be a whole
/// subquery), a FILTER clause, an OVER window, and WITHIN GROUP ordering.
pub struct Function {
    pub parameters: FunctionArguments,
    pub args: FunctionArguments,
    pub filter: Option<Box<Expr>>,
    pub over: Option<WindowType>,
    pub within_group: Vec<OrderByExpr>,
}

/// A function's argument position: absent, a full subquery, or a list.
pub enum FunctionArguments {
    NoArgs,
    Subquery(Box<Query>),
    List(FunctionArgumentList),
}

pub struct FunctionArgumentList {
    pub args: Vec<FunctionArg>,
    pub clauses: Vec<FunctionArgumentClause>,
}

pub enum FunctionArg {
    Named(FunctionArgExpr),
    Unnamed(FunctionArgExpr),
}

pub enum FunctionArgExpr {
    Expr(Expr),
    Wildcard,
}

/// A clause inside a function's argument list.
pub enum FunctionArgumentClause {
    OrderBy(Vec<OrderByExpr>),
    Limit(Box<Expr>),
    OnOverflow(ListAggOnOverflow),
    Having(HavingBound),
    Other,
}

/// LISTAGG's ON OVERFLOW clause; TRUNCATE may carry a filler expression.
pub enum ListAggOnOverflow {
    Error,
    Truncate(Option<Box<Expr>>),
}

/// A HAVING MAX / HAVING MIN bound inside an aggregate call.
pub struct HavingBound {
    pub bound: Box<Expr>,
}

/// An OVER clause: an inline window specification or a window name.
pub enum WindowType {
    WindowSpec(WindowSpec),
    NamedWindow,
}

/// One field of a dictionary literal.
pub struct DictionaryField {
    pub value: Box<Expr>,
}

/// One entry of a map literal.
pub struct MapEntry {
    pub key: Box<Expr>,
    pub value: Box<Expr>,
}

/// A map literal.
pub struct SqlMap {
    pub entries: Vec<MapEntry>,
}

/// An array literal.
pub struct Array {
    pub elem: Vec<Expr>,
}

/// An INTERVAL expression.
pub struct Interval {
    pub value: Box<Expr>,
}

/// A lambda expression; only its body can hold a subquery.
pub struct LambdaFunction {
    pub body: Box<Expr>,
}

/// An expression with an alias; the alias plays no part in the walk.
pub struct ExprWithAlias {
    pub expr: Expr,
}

/// The value source of a PIVOT table factor.
pub enum PivotValueSource {
    List(Vec<ExprWithAlias>),
    Any(Vec<OrderByExpr>),
    Subquery(Box<Query>),
}

/// One measure of a MATCH_RECOGNIZE clause.
pub struct Measure {
    pub expr: Expr,
}

/// One symbol definition of a MATCH_RECOGNIZE clause.
pub struct SymbolDefinition {
    pub definition: Expr,
}

/// Arguments of a table-valued call in a FROM clause.
pub struct TableFunctionArgs {
    pub args: Vec<FunctionArg>,
}

/// A table's version qualifier (FOR SYSTEM_TIME AS OF).
pub enum TableVersion {
    ForSystemTimeAsOf(Expr),
}

/// One item of a FROM clause or a join's relation.
pub enum TableFactor {
    Table { args: Option<TableFunctionArgs>, with_hints: Vec<Expr>, version: Option<TableVersion> },
    Derived { subquery: Box<Query> },
    TableFunction { expr: Box<Expr> },
    Function { args: Vec<FunctionArg> },
    Unnest { array_exprs: Vec<Expr> },
    JsonTable { json_expr: Box<Expr> },
    NestedJoin { table_with_joins: Box<TableWithJoins> },
    Pivot {
        table: Box<TableFactor>,
        aggregate_functions: Vec<ExprWithAlias>,
        value_source: PivotValueSource,
        default_on_null: Option<Expr>,
    },
    Unpivot { table: Box<TableFactor> },
    MatchRecognize {
        table: Box<TableFactor>,
        partition_by: Vec<Expr>,
        order_by: Vec<OrderByExpr>,
        measures: Vec<Measure>,
        symbols: Vec<SymbolDefinition>,
    },
}

/// A join's constraint. Only ON carries an expression; USING and NATURAL
/// name columns and can hide no subquery.
pub enum JoinConstraint {
    On(Expr),
    Using,
    Natural,
    Unconstrained,
}

/// A join's operator. Constrained operators carry a constraint; CROSS JOIN
/// and APPLY variants carry nothing the walk can read.
pub enum JoinOperator {
    Inner(JoinConstraint),
    LeftOuter(JoinConstraint),
    RightOuter(JoinConstraint),
    FullOuter(JoinConstraint),
    CrossJoin,
    LeftSemi(JoinConstraint),
    RightSemi(JoinConstraint),
    LeftAnti(JoinConstraint),
    RightAnti(JoinConstraint),
    CrossApply,
    OuterApply,
    AsOf { match_condition: Expr, constraint: JoinConstraint },
}

/// One join step: the joined relation and the operator joining it.
pub struct Join {
    pub relation: TableFactor,
    pub join_operator: JoinOperator,
}

/// One FROM item: a relation and the joins applied to it.
pub struct TableWithJoins {
    pub relation: TableFactor,
    pub joins: Vec<Join>,
}

/// A scalar expression, reduced to the positions that can hold nested
/// expressions or whole queries. Variants that can hold neither (column
/// references, literals, wildcards, and the like) are the single `Leaf`.
pub enum Expr {
    JsonAccess { value: Box<Expr> },
    CompositeAccess { expr: Box<Expr> },
    IsFalse(Box<Expr>),
    IsNotFalse(Box<Expr>),
    IsTrue(Box<Expr>),
    IsNotTrue(Box<Expr>),
    IsNull(Box<Expr>),
    IsNotNull(Box<Expr>),
    IsUnknown(Box<Expr>),
    IsNotUnknown(Box<Expr>),
    IsDistinctFrom(Box<Expr>, Box<Expr>),
    IsNotDistinctFrom(Box<Expr>, Box<Expr>),
    InList { expr: Box<Expr>, list: Vec<Expr> },
    InSubquery { expr: Box<Expr>, subquery: Box<Query> },
    InUnnest { expr: Box<Expr>, array_expr: Box<Expr> },
    Between { expr: Box<Expr>, low: Box<Expr>, high: Box<Expr> },
    BinaryOp { left: Box<Expr>, right: Box<Expr> },
    Like { expr: Box<Expr>, pattern: Box<Expr> },
    ILike { expr: Box<Expr>, pattern: Box<Expr> },
    SimilarTo { expr: Box<Expr>, pattern: Box<Expr> },
    RLike { expr: Box<Expr>, pattern: Box<Expr> },
    AnyOp { left: Box<Expr>, right: Box<Expr> },
    AllOp { left: Box<Expr>, right: Box<Expr> },
    UnaryOp { expr: Box<Expr> },
    Convert { expr: Box<Expr>, styles: Vec<Expr> },
    Cast { expr: Box<Expr> },
    AtTimeZone { timestamp: Box<Expr>, time_zone: Box<Expr> },
    Extract { expr: Box<Expr> },
    Ceil { expr: Box<Expr> },
    Floor { expr: Box<Expr> },
    Position { expr: Box<Expr>, within: Box<Expr> },
    Substring {
        expr: Box<Expr>,
        substring_from: Option<Box<Expr>>,
        substring_for: Option<Box<Expr>>,
    },
    Trim { expr: Box<Expr>, trim_what: Option<Box<Expr>>, trim_characters: Option<Vec<Expr>> },
    Overlay {
        expr: Box<Expr>,
        overlay_what: Box<Expr>,
        overlay_from: Box<Expr>,
        overlay_for: Option<Box<Expr>>,
    },
    Collate { expr: Box<Expr> },
    Nested(Box<Expr>),
    MapAccess { column: Box<Expr> },
    Function(Function),
    Case {
        operand: Option<Box<Expr>>,
        conditions: Vec<Expr>,
        results: Vec<Expr>,
        else_result: Option<Box<Expr>>,
    },
    Exists { subquery: Box<Query> },
    Subquery(Box<Query>),
    GroupingSets(Vec<Vec<Expr>>),
    Cube(Vec<Vec<Expr>>),
    Rollup(Vec<Vec<Expr>>),
    Tuple(Vec<Expr>),
    Struct { values: Vec<Expr> },
    Named { expr: Box<Expr> },
    Dictionary(Vec<DictionaryField>),
    MapLiteral(SqlMap),
    Array(Array),
    Interval(Interval),
    OuterJoin(Box<Expr>),
    Prior(Box<Expr>),
    Lambda(LambdaFunction),
    Leaf,
}

} // verus!
