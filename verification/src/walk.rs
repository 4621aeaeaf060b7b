//! The decomposition walk: every SELECT block reachable anywhere inside a
//! query tree is discovered in document order, together with the WITH-clause
//! texts needed to run a CTE-scoped SELECT on its own.
//!
//! Each `..._out` specification function states the outcome of walking one
//! node kind; each `walk_...` function computes it. A SELECT block always
//! contributes its own text first, then whatever its clauses hide, left to
//! right. A query that carries a WITH clause records that clause's text, then
//! walks the CTE bodies, then its own body and trailing clauses; every SELECT
//! found under the body that is not already in the scope of a nearer WITH
//! clause is tied to this one.

use vstd::prelude::*;

use crate::ast::{
    Array, ConnectBy, Cte, DictionaryField, Distinct, Expr, ExprWithAlias, Fetch, Function,
    FunctionArg, FunctionArgExpr, FunctionArgumentClause, FunctionArgumentList, FunctionArguments,
    GroupByExpr, HavingBound, Interpolate, InterpolateExpr, Interval, Join, JoinConstraint,
    JoinOperator, LambdaFunction, LateralView, ListAggOnOverflow, MapEntry, Measure,
    NamedWindowDefinition, NamedWindowExpr, Offset, OrderBy, OrderByExpr, PivotValueSource, Query,
    Select, SelectItem, SetExpr, SqlMap, Statement, SymbolDefinition, TableFactor,
    TableFunctionArgs, TableVersion, TableWithJoins, Top, TopQuantity, WindowSpec, WindowType,
    With, WithFill,
};
use crate::found::{
    attach_all, attached, m_add, m_empty, m_select, m_with, prefixed_all, prefixed_texts, texts_of,
    Found, Model,
};

verus! {

broadcast use vstd::std_specs::vec::group_vec_axioms, vstd::seq::group_seq_axioms,
    crate::found::group_model_lemmas;

pub open spec fn statement_out(s: Statement) -> Model
    decreases s,
{
    match s {
        Statement::Query(q) => query_out(*q),
        Statement::Other => m_empty(),
    }
}

pub open spec fn statements_out(ss: Seq<Statement>) -> Model
    decreases ss,
{
    if ss.len() == 0 {
        m_empty()
    } else {
        m_add(statement_out(ss[0]), statements_out(ss.subrange(1, ss.len() as int)))
    }
}

pub open spec fn opt_expr_out(o: Option<Expr>) -> Model
    decreases o,
{
    match o {
        Option::Some(e) => expr_out(e),
        Option::None => m_empty(),
    }
}

pub open spec fn opt_order_by_out(o: Option<OrderBy>) -> Model
    decreases o,
{
    match o {
        Option::Some(ob) => order_by_out(ob),
        Option::None => m_empty(),
    }
}

pub open spec fn opt_offset_out(o: Option<Offset>) -> Model
    decreases o,
{
    match o {
        Option::Some(x) => offset_out(x),
        Option::None => m_empty(),
    }
}

pub open spec fn opt_fetch_out(o: Option<Fetch>) -> Model
    decreases o,
{
    match o {
        Option::Some(x) => fetch_out(x),
        Option::None => m_empty(),
    }
}

pub open spec fn opt_distinct_out(o: Option<Distinct>) -> Model
    decreases o,
{
    match o {
        Option::Some(d) => distinct_out(d),
        Option::None => m_empty(),
    }
}

pub open spec fn opt_top_out(o: Option<Top>) -> Model
    decreases o,
{
    match o {
        Option::Some(t) => top_out(t),
        Option::None => m_empty(),
    }
}

pub open spec fn opt_connect_by_out(o: Option<ConnectBy>) -> Model
    decreases o,
{
    match o {
        Option::Some(cb) => connect_by_out(cb),
        Option::None => m_empty(),
    }
}

pub open spec fn opt_boxed_expr_out(o: Option<Box<Expr>>) -> Model
    decreases o,
{
    match o {
        Option::Some(e) => expr_out(*e),
        Option::None => m_empty(),
    }
}

pub open spec fn opt_window_type_out(o: Option<WindowType>) -> Model
    decreases o,
{
    match o {
        Option::Some(wt) => window_type_out(wt),
        Option::None => m_empty(),
    }
}

pub open spec fn opt_table_function_args_out(o: Option<TableFunctionArgs>) -> Model
    decreases o,
{
    match o {
        Option::Some(tfa) => table_function_args_out(tfa),
        Option::None => m_empty(),
    }
}

pub open spec fn opt_table_version_out(o: Option<TableVersion>) -> Model
    decreases o,
{
    match o {
        Option::Some(tv) => table_version_out(tv),
        Option::None => m_empty(),
    }
}

pub open spec fn query_out(q: Query) -> Model
    decreases q,
{
    let m1 = setexpr_out(*q.body);
    let m2 = m_add(m1, opt_order_by_out(q.order_by));
    let m3 = m_add(m2, opt_expr_out(q.limit));
    let m4 = m_add(m3, exprs_out(q.limit_by@));
    let m5 = m_add(m4, opt_offset_out(q.offset));
    let rest = m_add(m5, opt_fetch_out(q.fetch));
    match q.with {
        Option::Some(w) => m_add(
            with_out(w),
            Model { withs: rest.withs, selects: attach_all(rest.selects, w.text@) },
        ),
        Option::None => rest,
    }
}

pub open spec fn with_out(w: With) -> Model
    decreases w,
{
    m_add(m_with(w.text@), ctes_out(w.cte_tables@))
}

pub open spec fn cte_out(c: Cte) -> Model
    decreases c,
{
    query_out(*c.query)
}

pub open spec fn ctes_out(cs: Seq<Cte>) -> Model
    decreases cs,
{
    if cs.len() == 0 {
        m_empty()
    } else {
        m_add(cte_out(cs[0]), ctes_out(cs.subrange(1, cs.len() as int)))
    }
}

pub open spec fn setexpr_out(se: SetExpr) -> Model
    decreases se,
{
    match se {
        SetExpr::Select(s) => select_out(*s),
        SetExpr::Query(q) => query_out(*q),
        SetExpr::SetOperation { left, right } => m_add(setexpr_out(*left), setexpr_out(*right)),
        SetExpr::Other => m_empty(),
    }
}

#[verifier::rlimit(100)]
pub open spec fn select_out(s: Select) -> Model
    decreases s,
{
    let m1 = m_select(s.text@);
    let m2 = m_add(m1, opt_distinct_out(s.distinct));
    let m3 = m_add(m2, opt_top_out(s.top));
    let m4 = m_add(m3, select_items_out(s.projection@));
    let m5 = m_add(m4, table_with_joins_list_out(s.from@));
    let m6 = m_add(m5, lateral_views_out(s.lateral_views@));
    let m7 = m_add(m6, opt_expr_out(s.prewhere));
    let m8 = m_add(m7, opt_expr_out(s.selection));
    let m9 = m_add(m8, group_by_expr_out(s.group_by));
    let m10 = m_add(m9, exprs_out(s.cluster_by@));
    let m11 = m_add(m10, exprs_out(s.distribute_by@));
    let m12 = m_add(m11, exprs_out(s.sort_by@));
    let m13 = m_add(m12, opt_expr_out(s.having));
    let m14 = m_add(m13, named_window_definitions_out(s.named_window@));
    let m15 = m_add(m14, opt_expr_out(s.qualify));
    m_add(m15, opt_connect_by_out(s.connect_by))
}

pub open spec fn distinct_out(d: Distinct) -> Model
    decreases d,
{
    match d {
        Distinct::On(es) => exprs_out(es@),
        Distinct::Plain => m_empty(),
    }
}

pub open spec fn quantity_out(tq: TopQuantity) -> Model
    decreases tq,
{
    match tq {
        TopQuantity::Expr(e) => expr_out(*e),
        TopQuantity::Constant => m_empty(),
    }
}

pub open spec fn top_out(t: Top) -> Model
    decreases t,
{
    match t.quantity {
        Option::Some(q) => quantity_out(q),
        Option::None => m_empty(),
    }
}

pub open spec fn select_item_out(si: SelectItem) -> Model
    decreases si,
{
    match si {
        SelectItem::UnnamedExpr(e) => expr_out(e),
        SelectItem::ExprWithAlias(e) => expr_out(e),
        SelectItem::Wildcard => m_empty(),
    }
}

pub open spec fn select_items_out(sis: Seq<SelectItem>) -> Model
    decreases sis,
{
    if sis.len() == 0 {
        m_empty()
    } else {
        m_add(select_item_out(sis[0]), select_items_out(sis.subrange(1, sis.len() as int)))
    }
}

pub open spec fn lateral_view_out(lv: LateralView) -> Model
    decreases lv,
{
    expr_out(lv.lateral_view)
}

pub open spec fn lateral_views_out(lvs: Seq<LateralView>) -> Model
    decreases lvs,
{
    if lvs.len() == 0 {
        m_empty()
    } else {
        m_add(lateral_view_out(lvs[0]), lateral_views_out(lvs.subrange(1, lvs.len() as int)))
    }
}

pub open spec fn group_by_expr_out(g: GroupByExpr) -> Model
    decreases g,
{
    match g {
        GroupByExpr::Expressions(es) => exprs_out(es@),
        GroupByExpr::All => m_empty(),
    }
}

pub open spec fn with_fill_out(wf: WithFill) -> Model
    decreases wf,
{
    m_add(
        match wf.from {
            Option::Some(e) => expr_out(e),
            Option::None => m_empty(),
        },
        m_add(
            match wf.to {
                Option::Some(e) => expr_out(e),
                Option::None => m_empty(),
            },
            match wf.step {
                Option::Some(e) => expr_out(e),
                Option::None => m_empty(),
            },
        ),
    )
}

pub open spec fn order_by_expr_out(obe: OrderByExpr) -> Model
    decreases obe,
{
    m_add(
        expr_out(obe.expr),
        match obe.with_fill {
            Option::Some(wf) => with_fill_out(wf),
            Option::None => m_empty(),
        },
    )
}

pub open spec fn order_by_exprs_out(obes: Seq<OrderByExpr>) -> Model
    decreases obes,
{
    if obes.len() == 0 {
        m_empty()
    } else {
        m_add(order_by_expr_out(obes[0]), order_by_exprs_out(obes.subrange(1, obes.len() as int)))
    }
}

pub open spec fn window_spec_out(ws: WindowSpec) -> Model
    decreases ws,
{
    m_add(exprs_out(ws.partition_by@), order_by_exprs_out(ws.order_by@))
}

pub open spec fn named_window_expr_out(nwe: NamedWindowExpr) -> Model
    decreases nwe,
{
    match nwe {
        NamedWindowExpr::WindowSpec(ws) => window_spec_out(ws),
        NamedWindowExpr::NamedAlias => m_empty(),
    }
}

pub open spec fn named_window_definition_out(nwd: NamedWindowDefinition) -> Model
    decreases nwd,
{
    named_window_expr_out(nwd.window)
}

pub open spec fn named_window_definitions_out(nwds: Seq<NamedWindowDefinition>) -> Model
    decreases nwds,
{
    if nwds.len() == 0 {
        m_empty()
    } else {
        m_add(
            named_window_definition_out(nwds[0]),
            named_window_definitions_out(nwds.subrange(1, nwds.len() as int)),
        )
    }
}

pub open spec fn connect_by_out(cb: ConnectBy) -> Model
    decreases cb,
{
    m_add(expr_out(cb.condition), exprs_out(cb.relationships@))
}

pub open spec fn interpolate_expr_out(ie: InterpolateExpr) -> Model
    decreases ie,
{
    match ie.expr {
        Option::Some(e) => expr_out(e),
        Option::None => m_empty(),
    }
}

pub open spec fn interpolate_exprs_out(ies: Seq<InterpolateExpr>) -> Model
    decreases ies,
{
    if ies.len() == 0 {
        m_empty()
    } else {
        m_add(interpolate_expr_out(ies[0]), interpolate_exprs_out(ies.subrange(1, ies.len() as int)))
    }
}

pub open spec fn interpolate_out(ip: Interpolate) -> Model
    decreases ip,
{
    match ip.exprs {
        Option::Some(ies) => interpolate_exprs_out(ies@),
        Option::None => m_empty(),
    }
}

pub open spec fn order_by_out(ob: OrderBy) -> Model
    decreases ob,
{
    m_add(
        order_by_exprs_out(ob.exprs@),
        match ob.interpolate {
            Option::Some(ip) => interpolate_out(ip),
            Option::None => m_empty(),
        },
    )
}

pub open spec fn offset_out(o: Offset) -> Model
    decreases o,
{
    expr_out(o.value)
}

pub open spec fn fetch_out(f: Fetch) -> Model
    decreases f,
{
    match f.quantity {
        Option::Some(e) => expr_out(e),
        Option::None => m_empty(),
    }
}

pub open spec fn list_agg_on_overflow_out(lo: ListAggOnOverflow) -> Model
    decreases lo,
{
    match lo {
        ListAggOnOverflow::Truncate(filler) => match filler {
            Option::Some(e) => expr_out(*e),
            Option::None => m_empty(),
        },
        ListAggOnOverflow::Error => m_empty(),
    }
}

pub open spec fn having_bound_out(hb: HavingBound) -> Model
    decreases hb,
{
    expr_out(*hb.bound)
}

pub open spec fn function_argument_clause_out(fc: FunctionArgumentClause) -> Model
    decreases fc,
{
    match fc {
        FunctionArgumentClause::OrderBy(obes) => order_by_exprs_out(obes@),
        FunctionArgumentClause::Limit(e) => expr_out(*e),
        FunctionArgumentClause::OnOverflow(lo) => list_agg_on_overflow_out(lo),
        FunctionArgumentClause::Having(hb) => having_bound_out(hb),
        FunctionArgumentClause::Other => m_empty(),
    }
}

pub open spec fn function_argument_clauses_out(fcs: Seq<FunctionArgumentClause>) -> Model
    decreases fcs,
{
    if fcs.len() == 0 {
        m_empty()
    } else {
        m_add(
            function_argument_clause_out(fcs[0]),
            function_argument_clauses_out(fcs.subrange(1, fcs.len() as int)),
        )
    }
}

pub open spec fn function_arg_expr_out(fae: FunctionArgExpr) -> Model
    decreases fae,
{
    match fae {
        FunctionArgExpr::Expr(e) => expr_out(e),
        FunctionArgExpr::Wildcard => m_empty(),
    }
}

pub open spec fn function_arg_out(fa: FunctionArg) -> Model
    decreases fa,
{
    match fa {
        FunctionArg::Named(fae) => function_arg_expr_out(fae),
        FunctionArg::Unnamed(fae) => function_arg_expr_out(fae),
    }
}

pub open spec fn function_args_out(fas: Seq<FunctionArg>) -> Model
    decreases fas,
{
    if fas.len() == 0 {
        m_empty()
    } else {
        m_add(function_arg_out(fas[0]), function_args_out(fas.subrange(1, fas.len() as int)))
    }
}

pub open spec fn function_argument_list_out(fl: FunctionArgumentList) -> Model
    decreases fl,
{
    m_add(function_args_out(fl.args@), function_argument_clauses_out(fl.clauses@))
}

pub open spec fn function_arguments_out(fa: FunctionArguments) -> Model
    decreases fa,
{
    match fa {
        FunctionArguments::NoArgs => m_empty(),
        FunctionArguments::Subquery(q) => query_out(*q),
        FunctionArguments::List(fl) => function_argument_list_out(fl),
    }
}

pub open spec fn window_type_out(wt: WindowType) -> Model
    decreases wt,
{
    match wt {
        WindowType::WindowSpec(ws) => window_spec_out(ws),
        WindowType::NamedWindow => m_empty(),
    }
}

pub open spec fn function_out(fun: Function) -> Model
    decreases fun,
{
    let m1 = function_arguments_out(fun.parameters);
    let m2 = m_add(m1, function_arguments_out(fun.args));
    let m3 = m_add(m2, opt_boxed_expr_out(fun.filter));
    let m4 = m_add(m3, opt_window_type_out(fun.over));
    m_add(m4, order_by_exprs_out(fun.within_group@))
}

pub open spec fn dictionary_field_out(df: DictionaryField) -> Model
    decreases df,
{
    expr_out(*df.value)
}

pub open spec fn dictionary_fields_out(dfs: Seq<DictionaryField>) -> Model
    decreases dfs,
{
    if dfs.len() == 0 {
        m_empty()
    } else {
        m_add(dictionary_field_out(dfs[0]), dictionary_fields_out(dfs.subrange(1, dfs.len() as int)))
    }
}

pub open spec fn map_entry_out(me: MapEntry) -> Model
    decreases me,
{
    m_add(expr_out(*me.key), expr_out(*me.value))
}

pub open spec fn map_entries_out(mes: Seq<MapEntry>) -> Model
    decreases mes,
{
    if mes.len() == 0 {
        m_empty()
    } else {
        m_add(map_entry_out(mes[0]), map_entries_out(mes.subrange(1, mes.len() as int)))
    }
}

pub open spec fn sql_map_out(m: SqlMap) -> Model
    decreases m,
{
    map_entries_out(m.entries@)
}

pub open spec fn array_out(a: Array) -> Model
    decreases a,
{
    exprs_out(a.elem@)
}

pub open spec fn interval_out(iv: Interval) -> Model
    decreases iv,
{
    expr_out(*iv.value)
}

pub open spec fn lambda_function_out(lf: LambdaFunction) -> Model
    decreases lf,
{
    expr_out(*lf.body)
}

pub open spec fn expr_with_alias_out(ewa: ExprWithAlias) -> Model
    decreases ewa,
{
    expr_out(ewa.expr)
}

pub open spec fn expr_with_aliases_out(ewas: Seq<ExprWithAlias>) -> Model
    decreases ewas,
{
    if ewas.len() == 0 {
        m_empty()
    } else {
        m_add(expr_with_alias_out(ewas[0]), expr_with_aliases_out(ewas.subrange(1, ewas.len() as int)))
    }
}

pub open spec fn pivot_value_source_out(pvs: PivotValueSource) -> Model
    decreases pvs,
{
    match pvs {
        PivotValueSource::List(ewas) => expr_with_aliases_out(ewas@),
        PivotValueSource::Any(obes) => order_by_exprs_out(obes@),
        PivotValueSource::Subquery(q) => query_out(*q),
    }
}

pub open spec fn measure_out(m: Measure) -> Model
    decreases m,
{
    expr_out(m.expr)
}

pub open spec fn measures_out(ms: Seq<Measure>) -> Model
    decreases ms,
{
    if ms.len() == 0 {
        m_empty()
    } else {
        m_add(measure_out(ms[0]), measures_out(ms.subrange(1, ms.len() as int)))
    }
}

pub open spec fn symbol_definition_out(sd: SymbolDefinition) -> Model
    decreases sd,
{
    expr_out(sd.definition)
}

pub open spec fn symbol_definitions_out(sds: Seq<SymbolDefinition>) -> Model
    decreases sds,
{
    if sds.len() == 0 {
        m_empty()
    } else {
        m_add(symbol_definition_out(sds[0]), symbol_definitions_out(sds.subrange(1, sds.len() as int)))
    }
}

pub open spec fn table_function_args_out(tfa: TableFunctionArgs) -> Model
    decreases tfa,
{
    function_args_out(tfa.args@)
}

pub open spec fn table_version_out(tv: TableVersion) -> Model
    decreases tv,
{
    match tv {
        TableVersion::ForSystemTimeAsOf(e) => expr_out(e),
    }
}

pub open spec fn table_factor_out(tf: TableFactor) -> Model
    decreases tf,
{
    match tf {
        TableFactor::Table { args, with_hints, version } => {
            let m1 = opt_table_function_args_out(args);
            let m2 = m_add(m1, exprs_out(with_hints@));
            m_add(m2, opt_table_version_out(version))
        },
        TableFactor::Derived { subquery } => query_out(*subquery),
        TableFactor::TableFunction { expr } => expr_out(*expr),
        TableFactor::Function { args } => function_args_out(args@),
        TableFactor::Unnest { array_exprs } => exprs_out(array_exprs@),
        TableFactor::JsonTable { json_expr } => expr_out(*json_expr),
        TableFactor::NestedJoin { table_with_joins } => table_with_joins_out(*table_with_joins),
        TableFactor::Pivot { table, aggregate_functions, value_source, default_on_null } => {
            let m1 = table_factor_out(*table);
            let m2 = m_add(m1, expr_with_aliases_out(aggregate_functions@));
            let m3 = m_add(m2, pivot_value_source_out(value_source));
            m_add(m3, opt_expr_out(default_on_null))
        },
        TableFactor::Unpivot { table } => table_factor_out(*table),
        TableFactor::MatchRecognize { table, partition_by, order_by, measures, symbols } => {
            let m1 = table_factor_out(*table);
            let m2 = m_add(m1, exprs_out(partition_by@));
            let m3 = m_add(m2, order_by_exprs_out(order_by@));
            let m4 = m_add(m3, measures_out(measures@));
            m_add(m4, symbol_definitions_out(symbols@))
        },
    }
}

pub open spec fn join_constraint_out(jc: JoinConstraint) -> Model
    decreases jc,
{
    match jc {
        JoinConstraint::On(e) => expr_out(e),
        JoinConstraint::Using => m_empty(),
        JoinConstraint::Natural => m_empty(),
        JoinConstraint::Unconstrained => m_empty(),
    }
}

pub open spec fn join_operator_out(jo: JoinOperator) -> Model
    decreases jo,
{
    match jo {
        JoinOperator::Inner(jc) => join_constraint_out(jc),
        JoinOperator::LeftOuter(jc) => join_constraint_out(jc),
        JoinOperator::RightOuter(jc) => join_constraint_out(jc),
        JoinOperator::FullOuter(jc) => join_constraint_out(jc),
        JoinOperator::LeftSemi(jc) => join_constraint_out(jc),
        JoinOperator::RightSemi(jc) => join_constraint_out(jc),
        JoinOperator::LeftAnti(jc) => join_constraint_out(jc),
        JoinOperator::RightAnti(jc) => join_constraint_out(jc),
        JoinOperator::AsOf { match_condition, constraint } => m_add(
            expr_out(match_condition),
            join_constraint_out(constraint),
        ),
        JoinOperator::CrossJoin => m_empty(),
        JoinOperator::CrossApply => m_empty(),
        JoinOperator::OuterApply => m_empty(),
    }
}

pub open spec fn join_out(j: Join) -> Model
    decreases j,
{
    m_add(table_factor_out(j.relation), join_operator_out(j.join_operator))
}

pub open spec fn joins_out(js: Seq<Join>) -> Model
    decreases js,
{
    if js.len() == 0 {
        m_empty()
    } else {
        m_add(join_out(js[0]), joins_out(js.subrange(1, js.len() as int)))
    }
}

pub open spec fn table_with_joins_out(twj: TableWithJoins) -> Model
    decreases twj,
{
    m_add(table_factor_out(twj.relation), joins_out(twj.joins@))
}

pub open spec fn table_with_joins_list_out(twjs: Seq<TableWithJoins>) -> Model
    decreases twjs,
{
    if twjs.len() == 0 {
        m_empty()
    } else {
        m_add(
            table_with_joins_out(twjs[0]),
            table_with_joins_list_out(twjs.subrange(1, twjs.len() as int)),
        )
    }
}

pub open spec fn exprs_out(es: Seq<Expr>) -> Model
    decreases es,
{
    if es.len() == 0 {
        m_empty()
    } else {
        m_add(expr_out(es[0]), exprs_out(es.subrange(1, es.len() as int)))
    }
}

pub open spec fn exprs_list_out(ess: Seq<Vec<Expr>>) -> Model
    decreases ess,
{
    if ess.len() == 0 {
        m_empty()
    } else {
        m_add(exprs_out(ess[0]@), exprs_list_out(ess.subrange(1, ess.len() as int)))
    }
}

pub open spec fn expr_out(e: Expr) -> Model
    decreases e,
{
    match e {
        Expr::JsonAccess { value } => expr_out(*value),
        Expr::CompositeAccess { expr } => expr_out(*expr),
        Expr::IsFalse(x) => expr_out(*x),
        Expr::IsNotFalse(x) => expr_out(*x),
        Expr::IsTrue(x) => expr_out(*x),
        Expr::IsNotTrue(x) => expr_out(*x),
        Expr::IsNull(x) => expr_out(*x),
        Expr::IsNotNull(x) => expr_out(*x),
        Expr::IsUnknown(x) => expr_out(*x),
        Expr::IsNotUnknown(x) => expr_out(*x),
        Expr::IsDistinctFrom(a, b) => m_add(expr_out(*a), expr_out(*b)),
        Expr::IsNotDistinctFrom(a, b) => m_add(expr_out(*a), expr_out(*b)),
        Expr::InList { expr, list } => m_add(expr_out(*expr), exprs_out(list@)),
        Expr::InSubquery { expr, subquery } => m_add(expr_out(*expr), query_out(*subquery)),
        Expr::InUnnest { expr, array_expr } => m_add(expr_out(*expr), expr_out(*array_expr)),
        Expr::Between { expr, low, high } => m_add(
            expr_out(*expr),
            m_add(expr_out(*low), expr_out(*high)),
        ),
        Expr::BinaryOp { left, right } => m_add(expr_out(*left), expr_out(*right)),
        Expr::Like { expr, pattern } => m_add(expr_out(*expr), expr_out(*pattern)),
        Expr::ILike { expr, pattern } => m_add(expr_out(*expr), expr_out(*pattern)),
        Expr::SimilarTo { expr, pattern } => m_add(expr_out(*expr), expr_out(*pattern)),
        Expr::RLike { expr, pattern } => m_add(expr_out(*expr), expr_out(*pattern)),
        Expr::AnyOp { left, right } => m_add(expr_out(*left), expr_out(*right)),
        Expr::AllOp { left, right } => m_add(expr_out(*left), expr_out(*right)),
        Expr::UnaryOp { expr } => expr_out(*expr),
        Expr::Convert { expr, styles } => m_add(expr_out(*expr), exprs_out(styles@)),
        Expr::Cast { expr } => expr_out(*expr),
        Expr::AtTimeZone { timestamp, time_zone } => m_add(
            expr_out(*timestamp),
            expr_out(*time_zone),
        ),
        Expr::Extract { expr } => expr_out(*expr),
        Expr::Ceil { expr } => expr_out(*expr),
        Expr::Floor { expr } => expr_out(*expr),
        Expr::Position { expr, within } => m_add(expr_out(*expr), expr_out(*within)),
        Expr::Substring { expr, substring_from, substring_for } => m_add(
            expr_out(*expr),
            m_add(
                match substring_from {
                    Option::Some(x) => expr_out(*x),
                    Option::None => m_empty(),
                },
                match substring_for {
                    Option::Some(x) => expr_out(*x),
                    Option::None => m_empty(),
                },
            ),
        ),
        Expr::Trim { expr, trim_what, trim_characters } => m_add(
            expr_out(*expr),
            m_add(
                match trim_what {
                    Option::Some(x) => expr_out(*x),
                    Option::None => m_empty(),
                },
                match trim_characters {
                    Option::Some(es) => exprs_out(es@),
                    Option::None => m_empty(),
                },
            ),
        ),
        Expr::Overlay { expr, overlay_what, overlay_from, overlay_for } => m_add(
            expr_out(*expr),
            m_add(
                expr_out(*overlay_what),
                m_add(
                    expr_out(*overlay_from),
                    match overlay_for {
                        Option::Some(x) => expr_out(*x),
                        Option::None => m_empty(),
                    },
                ),
            ),
        ),
        Expr::Collate { expr } => expr_out(*expr),
        Expr::Nested(x) => expr_out(*x),
        Expr::MapAccess { column } => expr_out(*column),
        Expr::Function(fun) => function_out(fun),
        Expr::Case { operand, conditions, results, else_result } => m_add(
            match operand {
                Option::Some(x) => expr_out(*x),
                Option::None => m_empty(),
            },
            m_add(
                exprs_out(conditions@),
                m_add(
                    exprs_out(results@),
                    match else_result {
                        Option::Some(x) => expr_out(*x),
                        Option::None => m_empty(),
                    },
                ),
            ),
        ),
        Expr::Exists { subquery } => query_out(*subquery),
        Expr::Subquery(q) => query_out(*q),
        Expr::GroupingSets(ess) => exprs_list_out(ess@),
        Expr::Cube(ess) => exprs_list_out(ess@),
        Expr::Rollup(ess) => exprs_list_out(ess@),
        Expr::Tuple(es) => exprs_out(es@),
        Expr::Struct { values } => exprs_out(values@),
        Expr::Named { expr } => expr_out(*expr),
        Expr::Dictionary(dfs) => dictionary_fields_out(dfs@),
        Expr::MapLiteral(m) => sql_map_out(m),
        Expr::Array(a) => array_out(a),
        Expr::Interval(iv) => interval_out(iv),
        Expr::OuterJoin(x) => expr_out(*x),
        Expr::Prior(x) => expr_out(*x),
        Expr::Lambda(lf) => lambda_function_out(lf),
        Expr::Leaf => m_empty(),
    }
}

/// Decompose a list of parsed statements: the WITH-clause texts found, and
/// every discovered SELECT as one standalone runnable text (prefixed with its
/// nearest enclosing WITH clause when it has one), both in traversal order.
pub fn find_select_statement(statements: &Vec<Statement>) -> (r: (Vec<String>, Vec<String>))
    ensures
        texts_of(r.0@) == statements_out(statements@).withs,
        texts_of(r.1@) == prefixed_all(statements_out(statements@).selects),
{
    let f = walk_statements(statements);
    let selects = prefixed_texts(&f.selects);
    (f.withs, selects)
}

#[verifier::loop_isolation(false)]
pub fn walk_statements(ss: &Vec<Statement>) -> (r: Found)
    ensures
        r@ == statements_out(ss@),
    decreases ss@,
{
    let mut f = Found::new();
    let n = ss.len();
    proof {
        assert(ss@.subrange(0, ss@.len() as int) =~= ss@);
    }
    for i in 0..n
        invariant
            n == ss.len(),
            m_add(f@, statements_out(ss@.subrange(i as int, ss@.len() as int))) == statements_out(
                ss@,
            ),
    {
        proof {
            let tail = ss@.subrange(i as int, ss@.len() as int);
            assert(tail[0] == ss@[i as int]);
            assert(tail.subrange(1, tail.len() as int) =~= ss@.subrange(
                i as int + 1,
                ss@.len() as int,
            ));
        }
        let w = walk_statement(&ss[i]);
        f.absorb(w);
    }
    f
}

pub fn walk_statement(s: &Statement) -> (r: Found)
    ensures
        r@ == statement_out(*s),
    decreases *s,
{
    match s {
        Statement::Query(q) => walk_query(q),
        Statement::Other => Found::new(),
    }
}

pub fn walk_opt_expr(o: &Option<Expr>) -> (r: Found)
    ensures
        r@ == opt_expr_out(*o),
    decreases *o,
{
    match o {
        Some(e) => walk_expr(e),
        None => Found::new(),
    }
}

pub fn walk_opt_order_by(o: &Option<OrderBy>) -> (r: Found)
    ensures
        r@ == opt_order_by_out(*o),
    decreases *o,
{
    match o {
        Some(ob) => walk_order_by(ob),
        None => Found::new(),
    }
}

pub fn walk_opt_offset(o: &Option<Offset>) -> (r: Found)
    ensures
        r@ == opt_offset_out(*o),
    decreases *o,
{
    match o {
        Some(x) => walk_offset(x),
        None => Found::new(),
    }
}

pub fn walk_opt_fetch(o: &Option<Fetch>) -> (r: Found)
    ensures
        r@ == opt_fetch_out(*o),
    decreases *o,
{
    match o {
        Some(x) => walk_fetch(x),
        None => Found::new(),
    }
}

pub fn walk_opt_distinct(o: &Option<Distinct>) -> (r: Found)
    ensures
        r@ == opt_distinct_out(*o),
    decreases *o,
{
    match o {
        Some(d) => walk_distinct(d),
        None => Found::new(),
    }
}

pub fn walk_opt_top(o: &Option<Top>) -> (r: Found)
    ensures
        r@ == opt_top_out(*o),
    decreases *o,
{
    match o {
        Some(t) => walk_top(t),
        None => Found::new(),
    }
}

pub fn walk_opt_connect_by(o: &Option<ConnectBy>) -> (r: Found)
    ensures
        r@ == opt_connect_by_out(*o),
    decreases *o,
{
    match o {
        Some(cb) => walk_connect_by(cb),
        None => Found::new(),
    }
}

pub fn walk_opt_boxed_expr(o: &Option<Box<Expr>>) -> (r: Found)
    ensures
        r@ == opt_boxed_expr_out(*o),
    decreases *o,
{
    match o {
        Some(e) => walk_expr(e),
        None => Found::new(),
    }
}

pub fn walk_opt_window_type(o: &Option<WindowType>) -> (r: Found)
    ensures
        r@ == opt_window_type_out(*o),
    decreases *o,
{
    match o {
        Some(wt) => walk_window_type(wt),
        None => Found::new(),
    }
}

pub fn walk_opt_table_function_args(o: &Option<TableFunctionArgs>) -> (r: Found)
    ensures
        r@ == opt_table_function_args_out(*o),
    decreases *o,
{
    match o {
        Some(tfa) => walk_table_function_args(tfa),
        None => Found::new(),
    }
}

pub fn walk_opt_table_version(o: &Option<TableVersion>) -> (r: Found)
    ensures
        r@ == opt_table_version_out(*o),
    decreases *o,
{
    match o {
        Some(tv) => walk_table_version(tv),
        None => Found::new(),
    }
}

#[verifier::rlimit(100)]
pub fn walk_query(q: &Query) -> (r: Found)
    ensures
        r@ == query_out(*q),
    decreases *q,
{
    let mut rest = walk_setexpr(&q.body);
    let ghost m1 = setexpr_out(*q.body);
    let w = walk_opt_order_by(&q.order_by);
    rest.absorb(w);
    let ghost m2 = m_add(m1, opt_order_by_out(q.order_by));
    proof {
        assert(rest@ == m2);
    }
    let w = walk_opt_expr(&q.limit);
    rest.absorb(w);
    let ghost m3 = m_add(m2, opt_expr_out(q.limit));
    proof {
        assert(rest@ == m3);
    }
    let w = walk_exprs(&q.limit_by);
    rest.absorb(w);
    let ghost m4 = m_add(m3, exprs_out(q.limit_by@));
    proof {
        assert(rest@ == m4);
    }
    let w = walk_opt_offset(&q.offset);
    rest.absorb(w);
    let ghost m5 = m_add(m4, opt_offset_out(q.offset));
    proof {
        assert(rest@ == m5);
    }
    let w = walk_opt_fetch(&q.fetch);
    rest.absorb(w);
    proof {
        assert(rest@ == m_add(m5, opt_fetch_out(q.fetch)));
    }
    match &q.with {
        Some(wi) => {
            let mut f = walk_with(wi);
            let sels = attached(&rest.selects, &wi.text);
            let scoped = Found { withs: rest.withs, selects: sels };
            f.absorb(scoped);
            f
        },
        None => rest,
    }
}

pub fn walk_with(w: &With) -> (r: Found)
    ensures
        r@ == with_out(*w),
    decreases *w,
{
    let mut f = Found::new();
    f.push_with(w.text.clone());
    let c = walk_ctes(&w.cte_tables);
    f.absorb(c);
    f
}

pub fn walk_cte(c: &Cte) -> (r: Found)
    ensures
        r@ == cte_out(*c),
    decreases *c,
{
    walk_query(&c.query)
}

#[verifier::loop_isolation(false)]
pub fn walk_ctes(cs: &Vec<Cte>) -> (r: Found)
    ensures
        r@ == ctes_out(cs@),
    decreases cs@,
{
    let mut f = Found::new();
    let n = cs.len();
    proof {
        assert(cs@.subrange(0, cs@.len() as int) =~= cs@);
    }
    for i in 0..n
        invariant
            n == cs.len(),
            m_add(f@, ctes_out(cs@.subrange(i as int, cs@.len() as int))) == ctes_out(cs@),
    {
        proof {
            let tail = cs@.subrange(i as int, cs@.len() as int);
            assert(tail[0] == cs@[i as int]);
            assert(tail.subrange(1, tail.len() as int) =~= cs@.subrange(
                i as int + 1,
                cs@.len() as int,
            ));
        }
        let w = walk_cte(&cs[i]);
        f.absorb(w);
    }
    f
}

pub fn walk_setexpr(se: &SetExpr) -> (r: Found)
    ensures
        r@ == setexpr_out(*se),
    decreases *se,
{
    match se {
        SetExpr::Select(s) => walk_select(s),
        SetExpr::Query(q) => walk_query(q),
        SetExpr::SetOperation { left, right } => {
            let mut f = walk_setexpr(left);
            let w = walk_setexpr(right);
            f.absorb(w);
            f
        },
        SetExpr::Other => Found::new(),
    }
}

#[verifier::rlimit(100)]
pub fn walk_select(s: &Select) -> (r: Found)
    ensures
        r@ == select_out(*s),
    decreases *s,
{
    let mut f = Found::new();
    f.push_select(s.text.clone());
    let ghost m1 = m_select(s.text@);
    proof {
        assert(f@ == m1);
    }
    let w = walk_opt_distinct(&s.distinct);
    f.absorb(w);
    let ghost m2 = m_add(m1, opt_distinct_out(s.distinct));
    proof {
        assert(f@ == m2);
    }
    let w = walk_opt_top(&s.top);
    f.absorb(w);
    let ghost m3 = m_add(m2, opt_top_out(s.top));
    proof {
        assert(f@ == m3);
    }
    let w = walk_select_items(&s.projection);
    f.absorb(w);
    let ghost m4 = m_add(m3, select_items_out(s.projection@));
    proof {
        assert(f@ == m4);
    }
    let w = walk_table_with_joins_list(&s.from);
    f.absorb(w);
    let ghost m5 = m_add(m4, table_with_joins_list_out(s.from@));
    proof {
        assert(f@ == m5);
    }
    let w = walk_lateral_views(&s.lateral_views);
    f.absorb(w);
    let ghost m6 = m_add(m5, lateral_views_out(s.lateral_views@));
    proof {
        assert(f@ == m6);
    }
    let w = walk_opt_expr(&s.prewhere);
    f.absorb(w);
    let ghost m7 = m_add(m6, opt_expr_out(s.prewhere));
    proof {
        assert(f@ == m7);
    }
    let w = walk_opt_expr(&s.selection);
    f.absorb(w);
    let ghost m8 = m_add(m7, opt_expr_out(s.selection));
    proof {
        assert(f@ == m8);
    }
    let w = walk_group_by_expr(&s.group_by);
    f.absorb(w);
    let ghost m9 = m_add(m8, group_by_expr_out(s.group_by));
    proof {
        assert(f@ == m9);
    }
    let w = walk_exprs(&s.cluster_by);
    f.absorb(w);
    let ghost m10 = m_add(m9, exprs_out(s.cluster_by@));
    proof {
        assert(f@ == m10);
    }
    let w = walk_exprs(&s.distribute_by);
    f.absorb(w);
    let ghost m11 = m_add(m10, exprs_out(s.distribute_by@));
    proof {
        assert(f@ == m11);
    }
    let w = walk_exprs(&s.sort_by);
    f.absorb(w);
    let ghost m12 = m_add(m11, exprs_out(s.sort_by@));
    proof {
        assert(f@ == m12);
    }
    let w = walk_opt_expr(&s.having);
    f.absorb(w);
    let ghost m13 = m_add(m12, opt_expr_out(s.having));
    proof {
        assert(f@ == m13);
    }
    let w = walk_named_window_definitions(&s.named_window);
    f.absorb(w);
    let ghost m14 = m_add(m13, named_window_definitions_out(s.named_window@));
    proof {
        assert(f@ == m14);
    }
    let w = walk_opt_expr(&s.qualify);
    f.absorb(w);
    let ghost m15 = m_add(m14, opt_expr_out(s.qualify));
    proof {
        assert(f@ == m15);
    }
    let w = walk_opt_connect_by(&s.connect_by);
    f.absorb(w);
    proof {
        assert(f@ == m_add(m15, opt_connect_by_out(s.connect_by)));
    }
    f
}

pub fn walk_distinct(d: &Distinct) -> (r: Found)
    ensures
        r@ == distinct_out(*d),
    decreases *d,
{
    match d {
        Distinct::On(es) => walk_exprs(es),
        Distinct::Plain => Found::new(),
    }
}

pub fn walk_quantity(tq: &TopQuantity) -> (r: Found)
    ensures
        r@ == quantity_out(*tq),
    decreases *tq,
{
    match tq {
        TopQuantity::Expr(e) => walk_expr(e),
        TopQuantity::Constant => Found::new(),
    }
}

pub fn walk_top(t: &Top) -> (r: Found)
    ensures
        r@ == top_out(*t),
    decreases *t,
{
    match &t.quantity {
        Some(q) => walk_quantity(q),
        None => Found::new(),
    }
}

pub fn walk_select_item(si: &SelectItem) -> (r: Found)
    ensures
        r@ == select_item_out(*si),
    decreases *si,
{
    match si {
        SelectItem::UnnamedExpr(e) => walk_expr(e),
        SelectItem::ExprWithAlias(e) => walk_expr(e),
        SelectItem::Wildcard => Found::new(),
    }
}

#[verifier::loop_isolation(false)]
pub fn walk_select_items(sis: &Vec<SelectItem>) -> (r: Found)
    ensures
        r@ == select_items_out(sis@),
    decreases sis@,
{
    let mut f = Found::new();
    let n = sis.len();
    proof {
        assert(sis@.subrange(0, sis@.len() as int) =~= sis@);
    }
    for i in 0..n
        invariant
            n == sis.len(),
            m_add(f@, select_items_out(sis@.subrange(i as int, sis@.len() as int)))
                == select_items_out(sis@),
    {
        proof {
            let tail = sis@.subrange(i as int, sis@.len() as int);
            assert(tail[0] == sis@[i as int]);
            assert(tail.subrange(1, tail.len() as int) =~= sis@.subrange(
                i as int + 1,
                sis@.len() as int,
            ));
        }
        let w = walk_select_item(&sis[i]);
        f.absorb(w);
    }
    f
}

pub fn walk_lateral_view(lv: &LateralView) -> (r: Found)
    ensures
        r@ == lateral_view_out(*lv),
    decreases *lv,
{
    walk_expr(&lv.lateral_view)
}

#[verifier::loop_isolation(false)]
pub fn walk_lateral_views(lvs: &Vec<LateralView>) -> (r: Found)
    ensures
        r@ == lateral_views_out(lvs@),
    decreases lvs@,
{
    let mut f = Found::new();
    let n = lvs.len();
    proof {
        assert(lvs@.subrange(0, lvs@.len() as int) =~= lvs@);
    }
    for i in 0..n
        invariant
            n == lvs.len(),
            m_add(f@, lateral_views_out(lvs@.subrange(i as int, lvs@.len() as int)))
                == lateral_views_out(lvs@),
    {
        proof {
            let tail = lvs@.subrange(i as int, lvs@.len() as int);
            assert(tail[0] == lvs@[i as int]);
            assert(tail.subrange(1, tail.len() as int) =~= lvs@.subrange(
                i as int + 1,
                lvs@.len() as int,
            ));
        }
        let w = walk_lateral_view(&lvs[i]);
        f.absorb(w);
    }
    f
}

pub fn walk_group_by_expr(g: &GroupByExpr) -> (r: Found)
    ensures
        r@ == group_by_expr_out(*g),
    decreases *g,
{
    match g {
        GroupByExpr::Expressions(es) => walk_exprs(es),
        GroupByExpr::All => Found::new(),
    }
}

pub fn walk_with_fill(wf: &WithFill) -> (r: Found)
    ensures
        r@ == with_fill_out(*wf),
    decreases *wf,
{
    let mut f = Found::new();
    match &wf.from {
        Some(e) => {
            let w = walk_expr(e);
            f.absorb(w);
        },
        None => {},
    }
    match &wf.to {
        Some(e) => {
            let w = walk_expr(e);
            f.absorb(w);
        },
        None => {},
    }
    match &wf.step {
        Some(e) => {
            let w = walk_expr(e);
            f.absorb(w);
        },
        None => {},
    }
    f
}

pub fn walk_order_by_expr(obe: &OrderByExpr) -> (r: Found)
    ensures
        r@ == order_by_expr_out(*obe),
    decreases *obe,
{
    let mut f = walk_expr(&obe.expr);
    match &obe.with_fill {
        Some(wf) => {
            let w = walk_with_fill(wf);
            f.absorb(w);
        },
        None => {},
    }
    f
}

#[verifier::loop_isolation(false)]
pub fn walk_order_by_exprs(obes: &Vec<OrderByExpr>) -> (r: Found)
    ensures
        r@ == order_by_exprs_out(obes@),
    decreases obes@,
{
    let mut f = Found::new();
    let n = obes.len();
    proof {
        assert(obes@.subrange(0, obes@.len() as int) =~= obes@);
    }
    for i in 0..n
        invariant
            n == obes.len(),
            m_add(f@, order_by_exprs_out(obes@.subrange(i as int, obes@.len() as int)))
                == order_by_exprs_out(obes@),
    {
        proof {
            let tail = obes@.subrange(i as int, obes@.len() as int);
            assert(tail[0] == obes@[i as int]);
            assert(tail.subrange(1, tail.len() as int) =~= obes@.subrange(
                i as int + 1,
                obes@.len() as int,
            ));
        }
        let w = walk_order_by_expr(&obes[i]);
        f.absorb(w);
    }
    f
}

pub fn walk_window_spec(ws: &WindowSpec) -> (r: Found)
    ensures
        r@ == window_spec_out(*ws),
    decreases *ws,
{
    let mut f = walk_exprs(&ws.partition_by);
    let w = walk_order_by_exprs(&ws.order_by);
    f.absorb(w);
    f
}

pub fn walk_named_window_expr(nwe: &NamedWindowExpr) -> (r: Found)
    ensures
        r@ == named_window_expr_out(*nwe),
    decreases *nwe,
{
    match nwe {
        NamedWindowExpr::WindowSpec(ws) => walk_window_spec(ws),
        NamedWindowExpr::NamedAlias => Found::new(),
    }
}

pub fn walk_named_window_definition(nwd: &NamedWindowDefinition) -> (r: Found)
    ensures
        r@ == named_window_definition_out(*nwd),
    decreases *nwd,
{
    walk_named_window_expr(&nwd.window)
}

#[verifier::loop_isolation(false)]
pub fn walk_named_window_definitions(nwds: &Vec<NamedWindowDefinition>) -> (r: Found)
    ensures
        r@ == named_window_definitions_out(nwds@),
    decreases nwds@,
{
    let mut f = Found::new();
    let n = nwds.len();
    proof {
        assert(nwds@.subrange(0, nwds@.len() as int) =~= nwds@);
    }
    for i in 0..n
        invariant
            n == nwds.len(),
            m_add(f@, named_window_definitions_out(nwds@.subrange(i as int, nwds@.len() as int)))
                == named_window_definitions_out(nwds@),
    {
        proof {
            let tail = nwds@.subrange(i as int, nwds@.len() as int);
            assert(tail[0] == nwds@[i as int]);
            assert(tail.subrange(1, tail.len() as int) =~= nwds@.subrange(
                i as int + 1,
                nwds@.len() as int,
            ));
        }
        let w = walk_named_window_definition(&nwds[i]);
        f.absorb(w);
    }
    f
}

pub fn walk_connect_by(cb: &ConnectBy) -> (r: Found)
    ensures
        r@ == connect_by_out(*cb),
    decreases *cb,
{
    let mut f = walk_expr(&cb.condition);
    let w = walk_exprs(&cb.relationships);
    f.absorb(w);
    f
}

pub fn walk_interpolate_expr(ie: &InterpolateExpr) -> (r: Found)
    ensures
        r@ == interpolate_expr_out(*ie),
    decreases *ie,
{
    match &ie.expr {
        Some(e) => walk_expr(e),
        None => Found::new(),
    }
}

#[verifier::loop_isolation(false)]
pub fn walk_interpolate_exprs(ies: &Vec<InterpolateExpr>) -> (r: Found)
    ensures
        r@ == interpolate_exprs_out(ies@),
    decreases ies@,
{
    let mut f = Found::new();
    let n = ies.len();
    proof {
        assert(ies@.subrange(0, ies@.len() as int) =~= ies@);
    }
    for i in 0..n
        invariant
            n == ies.len(),
            m_add(f@, interpolate_exprs_out(ies@.subrange(i as int, ies@.len() as int)))
                == interpolate_exprs_out(ies@),
    {
        proof {
            let tail = ies@.subrange(i as int, ies@.len() as int);
            assert(tail[0] == ies@[i as int]);
            assert(tail.subrange(1, tail.len() as int) =~= ies@.subrange(
                i as int + 1,
                ies@.len() as int,
            ));
        }
        let w = walk_interpolate_expr(&ies[i]);
        f.absorb(w);
    }
    f
}

pub fn walk_interpolate(ip: &Interpolate) -> (r: Found)
    ensures
        r@ == interpolate_out(*ip),
    decreases *ip,
{
    match &ip.exprs {
        Some(ies) => walk_interpolate_exprs(ies),
        None => Found::new(),
    }
}

pub fn walk_order_by(ob: &OrderBy) -> (r: Found)
    ensures
        r@ == order_by_out(*ob),
    decreases *ob,
{
    let mut f = walk_order_by_exprs(&ob.exprs);
    match &ob.interpolate {
        Some(ip) => {
            let w = walk_interpolate(ip);
            f.absorb(w);
        },
        None => {},
    }
    f
}

pub fn walk_offset(o: &Offset) -> (r: Found)
    ensures
        r@ == offset_out(*o),
    decreases *o,
{
    walk_expr(&o.value)
}

pub fn walk_fetch(fe: &Fetch) -> (r: Found)
    ensures
        r@ == fetch_out(*fe),
    decreases *fe,
{
    match &fe.quantity {
        Some(e) => walk_expr(e),
        None => Found::new(),
    }
}

pub fn walk_list_agg_on_overflow(lo: &ListAggOnOverflow) -> (r: Found)
    ensures
        r@ == list_agg_on_overflow_out(*lo),
    decreases *lo,
{
    match lo {
        ListAggOnOverflow::Truncate(filler) => match filler {
            Some(e) => walk_expr(e),
            None => Found::new(),
        },
        ListAggOnOverflow::Error => Found::new(),
    }
}

pub fn walk_having_bound(hb: &HavingBound) -> (r: Found)
    ensures
        r@ == having_bound_out(*hb),
    decreases *hb,
{
    walk_expr(&hb.bound)
}

pub fn walk_function_argument_clause(fc: &FunctionArgumentClause) -> (r: Found)
    ensures
        r@ == function_argument_clause_out(*fc),
    decreases *fc,
{
    match fc {
        FunctionArgumentClause::OrderBy(obes) => walk_order_by_exprs(obes),
        FunctionArgumentClause::Limit(e) => walk_expr(e),
        FunctionArgumentClause::OnOverflow(lo) => walk_list_agg_on_overflow(lo),
        FunctionArgumentClause::Having(hb) => walk_having_bound(hb),
        FunctionArgumentClause::Other => Found::new(),
    }
}

#[verifier::loop_isolation(false)]
pub fn walk_function_argument_clauses(fcs: &Vec<FunctionArgumentClause>) -> (r: Found)
    ensures
        r@ == function_argument_clauses_out(fcs@),
    decreases fcs@,
{
    let mut f = Found::new();
    let n = fcs.len();
    proof {
        assert(fcs@.subrange(0, fcs@.len() as int) =~= fcs@);
    }
    for i in 0..n
        invariant
            n == fcs.len(),
            m_add(f@, function_argument_clauses_out(fcs@.subrange(i as int, fcs@.len() as int)))
                == function_argument_clauses_out(fcs@),
    {
        proof {
            let tail = fcs@.subrange(i as int, fcs@.len() as int);
            assert(tail[0] == fcs@[i as int]);
            assert(tail.subrange(1, tail.len() as int) =~= fcs@.subrange(
                i as int + 1,
                fcs@.len() as int,
            ));
        }
        let w = walk_function_argument_clause(&fcs[i]);
        f.absorb(w);
    }
    f
}

pub fn walk_function_arg_expr(fae: &FunctionArgExpr) -> (r: Found)
    ensures
        r@ == function_arg_expr_out(*fae),
    decreases *fae,
{
    match fae {
        FunctionArgExpr::Expr(e) => walk_expr(e),
        FunctionArgExpr::Wildcard => Found::new(),
    }
}

pub fn walk_function_arg(fa: &FunctionArg) -> (r: Found)
    ensures
        r@ == function_arg_out(*fa),
    decreases *fa,
{
    match fa {
        FunctionArg::Named(fae) => walk_function_arg_expr(fae),
        FunctionArg::Unnamed(fae) => walk_function_arg_expr(fae),
    }
}

#[verifier::loop_isolation(false)]
pub fn walk_function_args(fas: &Vec<FunctionArg>) -> (r: Found)
    ensures
        r@ == function_args_out(fas@),
    decreases fas@,
{
    let mut f = Found::new();
    let n = fas.len();
    proof {
        assert(fas@.subrange(0, fas@.len() as int) =~= fas@);
    }
    for i in 0..n
        invariant
            n == fas.len(),
            m_add(f@, function_args_out(fas@.subrange(i as int, fas@.len() as int)))
                == function_args_out(fas@),
    {
        proof {
            let tail = fas@.subrange(i as int, fas@.len() as int);
            assert(tail[0] == fas@[i as int]);
            assert(tail.subrange(1, tail.len() as int) =~= fas@.subrange(
                i as int + 1,
                fas@.len() as int,
            ));
        }
        let w = walk_function_arg(&fas[i]);
        f.absorb(w);
    }
    f
}

pub fn walk_function_argument_list(fl: &FunctionArgumentList) -> (r: Found)
    ensures
        r@ == function_argument_list_out(*fl),
    decreases *fl,
{
    let mut f = walk_function_args(&fl.args);
    let w = walk_function_argument_clauses(&fl.clauses);
    f.absorb(w);
    f
}

pub fn walk_function_arguments(fa: &FunctionArguments) -> (r: Found)
    ensures
        r@ == function_arguments_out(*fa),
    decreases *fa,
{
    match fa {
        FunctionArguments::NoArgs => Found::new(),
        FunctionArguments::Subquery(q) => walk_query(q),
        FunctionArguments::List(fl) => walk_function_argument_list(fl),
    }
}

pub fn walk_window_type(wt: &WindowType) -> (r: Found)
    ensures
        r@ == window_type_out(*wt),
    decreases *wt,
{
    match wt {
        WindowType::WindowSpec(ws) => walk_window_spec(ws),
        WindowType::NamedWindow => Found::new(),
    }
}

#[verifier::rlimit(100)]
pub fn walk_function(fun: &Function) -> (r: Found)
    ensures
        r@ == function_out(*fun),
    decreases *fun,
{
    let mut f = walk_function_arguments(&fun.parameters);
    let ghost m1 = function_arguments_out(fun.parameters);
    let w = walk_function_arguments(&fun.args);
    f.absorb(w);
    let ghost m2 = m_add(m1, function_arguments_out(fun.args));
    proof {
        assert(f@ == m2);
    }
    let w = walk_opt_boxed_expr(&fun.filter);
    f.absorb(w);
    let ghost m3 = m_add(m2, opt_boxed_expr_out(fun.filter));
    proof {
        assert(f@ == m3);
    }
    let w = walk_opt_window_type(&fun.over);
    f.absorb(w);
    let ghost m4 = m_add(m3, opt_window_type_out(fun.over));
    proof {
        assert(f@ == m4);
    }
    let w = walk_order_by_exprs(&fun.within_group);
    f.absorb(w);
    proof {
        assert(f@ == m_add(m4, order_by_exprs_out(fun.within_group@)));
    }
    f
}

pub fn walk_dictionary_field(df: &DictionaryField) -> (r: Found)
    ensures
        r@ == dictionary_field_out(*df),
    decreases *df,
{
    walk_expr(&df.value)
}

#[verifier::loop_isolation(false)]
pub fn walk_dictionary_fields(dfs: &Vec<DictionaryField>) -> (r: Found)
    ensures
        r@ == dictionary_fields_out(dfs@),
    decreases dfs@,
{
    let mut f = Found::new();
    let n = dfs.len();
    proof {
        assert(dfs@.subrange(0, dfs@.len() as int) =~= dfs@);
    }
    for i in 0..n
        invariant
            n == dfs.len(),
            m_add(f@, dictionary_fields_out(dfs@.subrange(i as int, dfs@.len() as int)))
                == dictionary_fields_out(dfs@),
    {
        proof {
            let tail = dfs@.subrange(i as int, dfs@.len() as int);
            assert(tail[0] == dfs@[i as int]);
            assert(tail.subrange(1, tail.len() as int) =~= dfs@.subrange(
                i as int + 1,
                dfs@.len() as int,
            ));
        }
        let w = walk_dictionary_field(&dfs[i]);
        f.absorb(w);
    }
    f
}

pub fn walk_map_entry(me: &MapEntry) -> (r: Found)
    ensures
        r@ == map_entry_out(*me),
    decreases *me,
{
    let mut f = walk_expr(&me.key);
    let w = walk_expr(&me.value);
    f.absorb(w);
    f
}

#[verifier::loop_isolation(false)]
pub fn walk_map_entries(mes: &Vec<MapEntry>) -> (r: Found)
    ensures
        r@ == map_entries_out(mes@),
    decreases mes@,
{
    let mut f = Found::new();
    let n = mes.len();
    proof {
        assert(mes@.subrange(0, mes@.len() as int) =~= mes@);
    }
    for i in 0..n
        invariant
            n == mes.len(),
            m_add(f@, map_entries_out(mes@.subrange(i as int, mes@.len() as int)))
                == map_entries_out(mes@),
    {
        proof {
            let tail = mes@.subrange(i as int, mes@.len() as int);
            assert(tail[0] == mes@[i as int]);
            assert(tail.subrange(1, tail.len() as int) =~= mes@.subrange(
                i as int + 1,
                mes@.len() as int,
            ));
        }
        let w = walk_map_entry(&mes[i]);
        f.absorb(w);
    }
    f
}

pub fn walk_map(m: &SqlMap) -> (r: Found)
    ensures
        r@ == sql_map_out(*m),
    decreases *m,
{
    walk_map_entries(&m.entries)
}

pub fn walk_array(a: &Array) -> (r: Found)
    ensures
        r@ == array_out(*a),
    decreases *a,
{
    walk_exprs(&a.elem)
}

pub fn walk_interval(iv: &Interval) -> (r: Found)
    ensures
        r@ == interval_out(*iv),
    decreases *iv,
{
    walk_expr(&iv.value)
}

pub fn walk_lambda_function(lf: &LambdaFunction) -> (r: Found)
    ensures
        r@ == lambda_function_out(*lf),
    decreases *lf,
{
    walk_expr(&lf.body)
}

pub fn walk_expr_with_alias(ewa: &ExprWithAlias) -> (r: Found)
    ensures
        r@ == expr_with_alias_out(*ewa),
    decreases *ewa,
{
    walk_expr(&ewa.expr)
}

#[verifier::loop_isolation(false)]
pub fn walk_expr_with_aliases(ewas: &Vec<ExprWithAlias>) -> (r: Found)
    ensures
        r@ == expr_with_aliases_out(ewas@),
    decreases ewas@,
{
    let mut f = Found::new();
    let n = ewas.len();
    proof {
        assert(ewas@.subrange(0, ewas@.len() as int) =~= ewas@);
    }
    for i in 0..n
        invariant
            n == ewas.len(),
            m_add(f@, expr_with_aliases_out(ewas@.subrange(i as int, ewas@.len() as int)))
                == expr_with_aliases_out(ewas@),
    {
        proof {
            let tail = ewas@.subrange(i as int, ewas@.len() as int);
            assert(tail[0] == ewas@[i as int]);
            assert(tail.subrange(1, tail.len() as int) =~= ewas@.subrange(
                i as int + 1,
                ewas@.len() as int,
            ));
        }
        let w = walk_expr_with_alias(&ewas[i]);
        f.absorb(w);
    }
    f
}

pub fn walk_pivot_value_source(pvs: &PivotValueSource) -> (r: Found)
    ensures
        r@ == pivot_value_source_out(*pvs),
    decreases *pvs,
{
    match pvs {
        PivotValueSource::List(ewas) => walk_expr_with_aliases(ewas),
        PivotValueSource::Any(obes) => walk_order_by_exprs(obes),
        PivotValueSource::Subquery(q) => walk_query(q),
    }
}

pub fn walk_measure(m: &Measure) -> (r: Found)
    ensures
        r@ == measure_out(*m),
    decreases *m,
{
    walk_expr(&m.expr)
}

#[verifier::loop_isolation(false)]
pub fn walk_measures(ms: &Vec<Measure>) -> (r: Found)
    ensures
        r@ == measures_out(ms@),
    decreases ms@,
{
    let mut f = Found::new();
    let n = ms.len();
    proof {
        assert(ms@.subrange(0, ms@.len() as int) =~= ms@);
    }
    for i in 0..n
        invariant
            n == ms.len(),
            m_add(f@, measures_out(ms@.subrange(i as int, ms@.len() as int))) == measures_out(ms@),
    {
        proof {
            let tail = ms@.subrange(i as int, ms@.len() as int);
            assert(tail[0] == ms@[i as int]);
            assert(tail.subrange(1, tail.len() as int) =~= ms@.subrange(
                i as int + 1,
                ms@.len() as int,
            ));
        }
        let w = walk_measure(&ms[i]);
        f.absorb(w);
    }
    f
}

pub fn walk_symbol_definition(sd: &SymbolDefinition) -> (r: Found)
    ensures
        r@ == symbol_definition_out(*sd),
    decreases *sd,
{
    walk_expr(&sd.definition)
}

#[verifier::loop_isolation(false)]
pub fn walk_symbol_definitions(sds: &Vec<SymbolDefinition>) -> (r: Found)
    ensures
        r@ == symbol_definitions_out(sds@),
    decreases sds@,
{
    let mut f = Found::new();
    let n = sds.len();
    proof {
        assert(sds@.subrange(0, sds@.len() as int) =~= sds@);
    }
    for i in 0..n
        invariant
            n == sds.len(),
            m_add(f@, symbol_definitions_out(sds@.subrange(i as int, sds@.len() as int)))
                == symbol_definitions_out(sds@),
    {
        proof {
            let tail = sds@.subrange(i as int, sds@.len() as int);
            assert(tail[0] == sds@[i as int]);
            assert(tail.subrange(1, tail.len() as int) =~= sds@.subrange(
                i as int + 1,
                sds@.len() as int,
            ));
        }
        let w = walk_symbol_definition(&sds[i]);
        f.absorb(w);
    }
    f
}

pub fn walk_table_function_args(tfa: &TableFunctionArgs) -> (r: Found)
    ensures
        r@ == table_function_args_out(*tfa),
    decreases *tfa,
{
    walk_function_args(&tfa.args)
}

pub fn walk_table_version(tv: &TableVersion) -> (r: Found)
    ensures
        r@ == table_version_out(*tv),
    decreases *tv,
{
    match tv {
        TableVersion::ForSystemTimeAsOf(e) => walk_expr(e),
    }
}

#[verifier::rlimit(100)]
pub fn walk_table_factor(tf: &TableFactor) -> (r: Found)
    ensures
        r@ == table_factor_out(*tf),
    decreases *tf,
{
    match tf {
        TableFactor::Table { args, with_hints, version } => {
            let mut f = walk_opt_table_function_args(args);
            let ghost m1 = opt_table_function_args_out(*args);
            let w = walk_exprs(with_hints);
            f.absorb(w);
            let ghost m2 = m_add(m1, exprs_out(with_hints@));
            proof {
                assert(f@ == m2);
            }
            let w = walk_opt_table_version(version);
            f.absorb(w);
            proof {
                assert(f@ == m_add(m2, opt_table_version_out(*version)));
            }
            f
        },
        TableFactor::Derived { subquery } => walk_query(subquery),
        TableFactor::TableFunction { expr } => walk_expr(expr),
        TableFactor::Function { args } => walk_function_args(args),
        TableFactor::Unnest { array_exprs } => walk_exprs(array_exprs),
        TableFactor::JsonTable { json_expr } => walk_expr(json_expr),
        TableFactor::NestedJoin { table_with_joins } => walk_table_with_joins(table_with_joins),
        TableFactor::Pivot { table, aggregate_functions, value_source, default_on_null } => {
            let mut f = walk_table_factor(table);
            let ghost m1 = table_factor_out(**table);
            let w = walk_expr_with_aliases(aggregate_functions);
            f.absorb(w);
            let ghost m2 = m_add(m1, expr_with_aliases_out(aggregate_functions@));
            proof {
                assert(f@ == m2);
            }
            let w = walk_pivot_value_source(value_source);
            f.absorb(w);
            let ghost m3 = m_add(m2, pivot_value_source_out(*value_source));
            proof {
                assert(f@ == m3);
            }
            let w = walk_opt_expr(default_on_null);
            f.absorb(w);
            proof {
                assert(f@ == m_add(m3, opt_expr_out(*default_on_null)));
            }
            f
        },
        TableFactor::Unpivot { table } => walk_table_factor(table),
        TableFactor::MatchRecognize { table, partition_by, order_by, measures, symbols } => {
            let mut f = walk_table_factor(table);
            let ghost m1 = table_factor_out(**table);
            let w = walk_exprs(partition_by);
            f.absorb(w);
            let ghost m2 = m_add(m1, exprs_out(partition_by@));
            proof {
                assert(f@ == m2);
            }
            let w = walk_order_by_exprs(order_by);
            f.absorb(w);
            let ghost m3 = m_add(m2, order_by_exprs_out(order_by@));
            proof {
                assert(f@ == m3);
            }
            let w = walk_measures(measures);
            f.absorb(w);
            let ghost m4 = m_add(m3, measures_out(measures@));
            proof {
                assert(f@ == m4);
            }
            let w = walk_symbol_definitions(symbols);
            f.absorb(w);
            proof {
                assert(f@ == m_add(m4, symbol_definitions_out(symbols@)));
            }
            f
        },
    }
}

pub fn walk_join_constraint(jc: &JoinConstraint) -> (r: Found)
    ensures
        r@ == join_constraint_out(*jc),
    decreases *jc,
{
    match jc {
        JoinConstraint::On(e) => walk_expr(e),
        JoinConstraint::Using => Found::new(),
        JoinConstraint::Natural => Found::new(),
        JoinConstraint::Unconstrained => Found::new(),
    }
}

pub fn walk_join_operator(jo: &JoinOperator) -> (r: Found)
    ensures
        r@ == join_operator_out(*jo),
    decreases *jo,
{
    match jo {
        JoinOperator::Inner(jc) => walk_join_constraint(jc),
        JoinOperator::LeftOuter(jc) => walk_join_constraint(jc),
        JoinOperator::RightOuter(jc) => walk_join_constraint(jc),
        JoinOperator::FullOuter(jc) => walk_join_constraint(jc),
        JoinOperator::LeftSemi(jc) => walk_join_constraint(jc),
        JoinOperator::RightSemi(jc) => walk_join_constraint(jc),
        JoinOperator::LeftAnti(jc) => walk_join_constraint(jc),
        JoinOperator::RightAnti(jc) => walk_join_constraint(jc),
        JoinOperator::AsOf { match_condition, constraint } => {
            let mut f = walk_expr(match_condition);
            let w = walk_join_constraint(constraint);
            f.absorb(w);
            f
        },
        JoinOperator::CrossJoin => Found::new(),
        JoinOperator::CrossApply => Found::new(),
        JoinOperator::OuterApply => Found::new(),
    }
}

pub fn walk_join(j: &Join) -> (r: Found)
    ensures
        r@ == join_out(*j),
    decreases *j,
{
    let mut f = walk_table_factor(&j.relation);
    let w = walk_join_operator(&j.join_operator);
    f.absorb(w);
    f
}

#[verifier::loop_isolation(false)]
pub fn walk_joins(js: &Vec<Join>) -> (r: Found)
    ensures
        r@ == joins_out(js@),
    decreases js@,
{
    let mut f = Found::new();
    let n = js.len();
    proof {
        assert(js@.subrange(0, js@.len() as int) =~= js@);
    }
    for i in 0..n
        invariant
            n == js.len(),
            m_add(f@, joins_out(js@.subrange(i as int, js@.len() as int))) == joins_out(js@),
    {
        proof {
            let tail = js@.subrange(i as int, js@.len() as int);
            assert(tail[0] == js@[i as int]);
            assert(tail.subrange(1, tail.len() as int) =~= js@.subrange(
                i as int + 1,
                js@.len() as int,
            ));
        }
        let w = walk_join(&js[i]);
        f.absorb(w);
    }
    f
}

pub fn walk_table_with_joins(twj: &TableWithJoins) -> (r: Found)
    ensures
        r@ == table_with_joins_out(*twj),
    decreases *twj,
{
    let mut f = walk_table_factor(&twj.relation);
    let w = walk_joins(&twj.joins);
    f.absorb(w);
    f
}

#[verifier::loop_isolation(false)]
pub fn walk_table_with_joins_list(twjs: &Vec<TableWithJoins>) -> (r: Found)
    ensures
        r@ == table_with_joins_list_out(twjs@),
    decreases twjs@,
{
    let mut f = Found::new();
    let n = twjs.len();
    proof {
        assert(twjs@.subrange(0, twjs@.len() as int) =~= twjs@);
    }
    for i in 0..n
        invariant
            n == twjs.len(),
            m_add(f@, table_with_joins_list_out(twjs@.subrange(i as int, twjs@.len() as int)))
                == table_with_joins_list_out(twjs@),
    {
        proof {
            let tail = twjs@.subrange(i as int, twjs@.len() as int);
            assert(tail[0] == twjs@[i as int]);
            assert(tail.subrange(1, tail.len() as int) =~= twjs@.subrange(
                i as int + 1,
                twjs@.len() as int,
            ));
        }
        let w = walk_table_with_joins(&twjs[i]);
        f.absorb(w);
    }
    f
}

#[verifier::loop_isolation(false)]
pub fn walk_exprs(es: &Vec<Expr>) -> (r: Found)
    ensures
        r@ == exprs_out(es@),
    decreases es@,
{
    let mut f = Found::new();
    let n = es.len();
    proof {
        assert(es@.subrange(0, es@.len() as int) =~= es@);
    }
    for i in 0..n
        invariant
            n == es.len(),
            m_add(f@, exprs_out(es@.subrange(i as int, es@.len() as int))) == exprs_out(es@),
    {
        proof {
            let tail = es@.subrange(i as int, es@.len() as int);
            assert(tail[0] == es@[i as int]);
            assert(tail.subrange(1, tail.len() as int) =~= es@.subrange(
                i as int + 1,
                es@.len() as int,
            ));
        }
        let w = walk_expr(&es[i]);
        f.absorb(w);
    }
    f
}

#[verifier::loop_isolation(false)]
pub fn walk_exprs_list(ess: &Vec<Vec<Expr>>) -> (r: Found)
    ensures
        r@ == exprs_list_out(ess@),
    decreases ess@,
{
    let mut f = Found::new();
    let n = ess.len();
    proof {
        assert(ess@.subrange(0, ess@.len() as int) =~= ess@);
    }
    for i in 0..n
        invariant
            n == ess.len(),
            m_add(f@, exprs_list_out(ess@.subrange(i as int, ess@.len() as int))) == exprs_list_out(
                ess@,
            ),
    {
        proof {
            let tail = ess@.subrange(i as int, ess@.len() as int);
            assert(tail[0] == ess@[i as int]);
            assert(tail.subrange(1, tail.len() as int) =~= ess@.subrange(
                i as int + 1,
                ess@.len() as int,
            ));
        }
        let w = walk_exprs(&ess[i]);
        f.absorb(w);
    }
    f
}

pub fn walk_expr(e: &Expr) -> (r: Found)
    ensures
        r@ == expr_out(*e),
    decreases *e,
{
    match e {
        Expr::JsonAccess { value } => walk_expr(value),
        Expr::CompositeAccess { expr } => walk_expr(expr),
        Expr::IsFalse(x) => walk_expr(x),
        Expr::IsNotFalse(x) => walk_expr(x),
        Expr::IsTrue(x) => walk_expr(x),
        Expr::IsNotTrue(x) => walk_expr(x),
        Expr::IsNull(x) => walk_expr(x),
        Expr::IsNotNull(x) => walk_expr(x),
        Expr::IsUnknown(x) => walk_expr(x),
        Expr::IsNotUnknown(x) => walk_expr(x),
        Expr::IsDistinctFrom(a, b) => {
            let mut f = walk_expr(a);
            let w = walk_expr(b);
            f.absorb(w);
            f
        },
        Expr::IsNotDistinctFrom(a, b) => {
            let mut f = walk_expr(a);
            let w = walk_expr(b);
            f.absorb(w);
            f
        },
        Expr::InList { expr, list } => {
            let mut f = walk_expr(expr);
            let w = walk_exprs(list);
            f.absorb(w);
            f
        },
        Expr::InSubquery { expr, subquery } => {
            let mut f = walk_expr(expr);
            let w = walk_query(subquery);
            f.absorb(w);
            f
        },
        Expr::InUnnest { expr, array_expr } => {
            let mut f = walk_expr(expr);
            let w = walk_expr(array_expr);
            f.absorb(w);
            f
        },
        Expr::Between { expr, low, high } => {
            let mut f = walk_expr(expr);
            let w = walk_expr(low);
            f.absorb(w);
            let w = walk_expr(high);
            f.absorb(w);
            f
        },
        Expr::BinaryOp { left, right } => {
            let mut f = walk_expr(left);
            let w = walk_expr(right);
            f.absorb(w);
            f
        },
        Expr::Like { expr, pattern } => {
            let mut f = walk_expr(expr);
            let w = walk_expr(pattern);
            f.absorb(w);
            f
        },
        Expr::ILike { expr, pattern } => {
            let mut f = walk_expr(expr);
            let w = walk_expr(pattern);
            f.absorb(w);
            f
        },
        Expr::SimilarTo { expr, pattern } => {
            let mut f = walk_expr(expr);
            let w = walk_expr(pattern);
            f.absorb(w);
            f
        },
        Expr::RLike { expr, pattern } => {
            let mut f = walk_expr(expr);
            let w = walk_expr(pattern);
            f.absorb(w);
            f
        },
        Expr::AnyOp { left, right } => {
            let mut f = walk_expr(left);
            let w = walk_expr(right);
            f.absorb(w);
            f
        },
        Expr::AllOp { left, right } => {
            let mut f = walk_expr(left);
            let w = walk_expr(right);
            f.absorb(w);
            f
        },
        Expr::UnaryOp { expr } => walk_expr(expr),
        Expr::Convert { expr, styles } => {
            let mut f = walk_expr(expr);
            let w = walk_exprs(styles);
            f.absorb(w);
            f
        },
        Expr::Cast { expr } => walk_expr(expr),
        Expr::AtTimeZone { timestamp, time_zone } => {
            let mut f = walk_expr(timestamp);
            let w = walk_expr(time_zone);
            f.absorb(w);
            f
        },
        Expr::Extract { expr } => walk_expr(expr),
        Expr::Ceil { expr } => walk_expr(expr),
        Expr::Floor { expr } => walk_expr(expr),
        Expr::Position { expr, within } => {
            let mut f = walk_expr(expr);
            let w = walk_expr(within);
            f.absorb(w);
            f
        },
        Expr::Substring { expr, substring_from, substring_for } => {
            let mut f = walk_expr(expr);
            match substring_from {
                Some(x) => {
                    let w = walk_expr(x);
                    f.absorb(w);
                },
                None => {},
            }
            match substring_for {
                Some(x) => {
                    let w = walk_expr(x);
                    f.absorb(w);
                },
                None => {},
            }
            f
        },
        Expr::Trim { expr, trim_what, trim_characters } => {
            let mut f = walk_expr(expr);
            match trim_what {
                Some(x) => {
                    let w = walk_expr(x);
                    f.absorb(w);
                },
                None => {},
            }
            match trim_characters {
                Some(es) => {
                    let w = walk_exprs(es);
                    f.absorb(w);
                },
                None => {},
            }
            f
        },
        Expr::Overlay { expr, overlay_what, overlay_from, overlay_for } => {
            let mut f = walk_expr(expr);
            let w = walk_expr(overlay_what);
            f.absorb(w);
            let w = walk_expr(overlay_from);
            f.absorb(w);
            match overlay_for {
                Some(x) => {
                    let w = walk_expr(x);
                    f.absorb(w);
                },
                None => {},
            }
            f
        },
        Expr::Collate { expr } => walk_expr(expr),
        Expr::Nested(x) => walk_expr(x),
        Expr::MapAccess { column } => walk_expr(column),
        Expr::Function(fun) => walk_function(fun),
        Expr::Case { operand, conditions, results, else_result } => {
            let mut f = Found::new();
            match operand {
                Some(x) => {
                    let w = walk_expr(x);
                    f.absorb(w);
                },
                None => {},
            }
            let w = walk_exprs(conditions);
            f.absorb(w);
            let w = walk_exprs(results);
            f.absorb(w);
            match else_result {
                Some(x) => {
                    let w = walk_expr(x);
                    f.absorb(w);
                },
                None => {},
            }
            f
        },
        Expr::Exists { subquery } => walk_query(subquery),
        Expr::Subquery(q) => walk_query(q),
        Expr::GroupingSets(ess) => walk_exprs_list(ess),
        Expr::Cube(ess) => walk_exprs_list(ess),
        Expr::Rollup(ess) => walk_exprs_list(ess),
        Expr::Tuple(es) => walk_exprs(es),
        Expr::Struct { values } => walk_exprs(values),
        Expr::Named { expr } => walk_expr(expr),
        Expr::Dictionary(dfs) => walk_dictionary_fields(dfs),
        Expr::MapLiteral(m) => walk_map(m),
        Expr::Array(a) => walk_array(a),
        Expr::Interval(iv) => walk_interval(iv),
        Expr::OuterJoin(x) => walk_expr(x),
        Expr::Prior(x) => walk_expr(x),
        Expr::Lambda(lf) => walk_lambda_function(lf),
        Expr::Leaf => Found::new(),
    }
}

} // verus!
