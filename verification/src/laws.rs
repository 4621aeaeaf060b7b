//! Laws of the decomposition walk, stated over the specification functions
//! of `walk` and proved once and for all.

use vstd::prelude::*;

use crate::ast::{
    Expr, GroupByExpr, JoinConstraint, JoinOperator, Query, Select, SelectItem, SetExpr,
    Statement, TableFactor, TableWithJoins,
};
use crate::found::{
    attach_all, m_add, m_empty, m_select, prefixed, prefixed_all, Model, SelModel,
};
use crate::walk::{
    ctes_out, expr_out, exprs_out, group_by_expr_out, joins_out, lateral_views_out,
    named_window_definitions_out, opt_connect_by_out, opt_distinct_out, opt_expr_out,
    opt_fetch_out, opt_offset_out, opt_order_by_out, opt_table_function_args_out,
    opt_table_version_out, opt_top_out, query_out, select_item_out, select_items_out, select_out,
    setexpr_out, statement_out, statements_out, table_factor_out, table_with_joins_list_out,
    table_with_joins_out, with_out,
};

verus! {

broadcast use vstd::std_specs::vec::group_vec_axioms, vstd::seq::group_seq_axioms,
    crate::found::group_model_lemmas;

/// The outcome of walking one SELECT block, taken apart: the block's own text
/// always comes first, not yet tied to any WITH clause, and nothing before it.
#[verifier::rlimit(100)]
pub proof fn lemma_select_own_text_first(s: Select)
    ensures
        select_out(s).selects.len() >= 1,
        select_out(s).selects[0] == (SelModel { text: s.text@, with_text: Option::None }),
{
}

/// Walking a list of exactly one statement is walking that statement.
#[verifier::rlimit(100)]
pub proof fn lemma_single_statement(st: Statement)
    ensures
        statements_out(seq![st]) == statement_out(st),
{
    let ss = seq![st];
    assert(ss.subrange(1, 1) =~= Seq::<Statement>::empty());
    assert(statements_out(ss.subrange(1, 1)) == m_empty());
    assert(m_add(statement_out(st), m_empty()) == statement_out(st));
}

/// A query whose body is a plain SELECT never comes back empty: the walk
/// returns at least the SELECT itself.
#[verifier::rlimit(100)]
pub proof fn lemma_query_select_nonempty(q: Query)
    requires
        (*q.body) matches SetExpr::Select(_),
    ensures
        query_out(q).selects.len() >= 1,
{
    let sel = (*q.body)->Select_0;
    lemma_select_own_text_first(*sel);
}

/// A statement wrapping a query whose SELECT has no nested content decomposes
/// to exactly that SELECT's text and nothing else: no WITH text, and the one
/// SELECT tied to no WITH clause.
#[verifier::rlimit(100)]
pub proof fn lemma_flat_select_statement(st: Statement, text: Seq<char>)
    requires
        st matches Statement::Query(q) && ({
            &&& (*q).with is None
            &&& (*q).order_by is None
            &&& (*q).limit is None
            &&& (*q).limit_by@.len() == 0
            &&& (*q).offset is None
            &&& (*q).fetch is None
            &&& (*(*q).body) matches SetExpr::Select(sel) && select_out(*sel) == m_select(text)
        }),
    ensures
        statement_out(st).withs == Seq::<Seq<char>>::empty(),
        statement_out(st).selects == seq![SelModel { text: text, with_text: Option::None }],
        prefixed_all(statement_out(st).selects) == seq![text],
{
    let q = st->Query_0;
    assert(exprs_out((*q).limit_by@) == m_empty());
    assert(statement_out(st) =~= m_select(text));
    assert(prefixed_all(statement_out(st).selects) =~= seq![text]);
}

/// Walking a set operation (UNION / INTERSECT / EXCEPT) walks the left branch
/// before the right branch, and the outcome is their concatenation in that
/// order.
#[verifier::rlimit(100)]
pub proof fn lemma_set_operation_order(se: SetExpr)
    requires
        se is SetOperation,
    ensures
        setexpr_out(se).selects == setexpr_out(*se->SetOperation_left).selects + setexpr_out(
            *se->SetOperation_right,
        ).selects,
        setexpr_out(se).withs == setexpr_out(*se->SetOperation_left).withs + setexpr_out(
            *se->SetOperation_right,
        ).withs,
{
}

/// Projection items that are all wildcards hide no nested query.
#[verifier::rlimit(100)]
proof fn lemma_wildcards_contribute_nothing(sis: Seq<SelectItem>)
    requires
        forall|i: int| 0 <= i < sis.len() ==> sis[i] is Wildcard,
    ensures
        select_items_out(sis) == m_empty(),
    decreases sis.len(),
{
    if sis.len() > 0 {
        assert(select_item_out(sis[0]) == m_empty());
        let tail = sis.subrange(1, sis.len() as int);
        assert(forall|i: int| 0 <= i < tail.len() ==> tail[i] is Wildcard);
        lemma_wildcards_contribute_nothing(tail);
    }
}

/// A FROM item that names a plain table, with no arguments, hints, version
/// qualifier or joins.
pub open spec fn plain_from_item(twj: TableWithJoins) -> bool {
    &&& twj.joins@.len() == 0
    &&& twj.relation matches TableFactor::Table { args, with_hints, version } && ({
        &&& args is None
        &&& with_hints@.len() == 0
        &&& version is None
    })
}

/// FROM items that all name plain tables hide no nested query.
#[verifier::rlimit(100)]
proof fn lemma_plain_tables_contribute_nothing(twjs: Seq<TableWithJoins>)
    requires
        forall|i: int| 0 <= i < twjs.len() ==> plain_from_item(twjs[i]),
    ensures
        table_with_joins_list_out(twjs) == m_empty(),
    decreases twjs.len(),
{
    if twjs.len() > 0 {
        let twj = twjs[0];
        assert(plain_from_item(twj));
        let hints = twj.relation->Table_with_hints;
        assert(exprs_out(hints@) == m_empty());
        assert(opt_table_function_args_out(twj.relation->Table_args) == m_empty());
        assert(opt_table_version_out(twj.relation->Table_version) == m_empty());
        assert(table_factor_out(twj.relation) == m_empty());
        assert(joins_out(twj.joins@) == m_empty());
        assert(table_with_joins_out(twj) == m_empty());
        let tail = twjs.subrange(1, twjs.len() as int);
        assert(forall|i: int| 0 <= i < tail.len() ==> plain_from_item(tail[i]));
        lemma_plain_tables_contribute_nothing(tail);
    }
}

/// A SELECT built of wildcard projection items and plain table FROM items,
/// with every other clause absent or empty, has no nested content: walking
/// it yields its own text and nothing else.
#[verifier::rlimit(100)]
pub proof fn lemma_plain_select_is_flat(s: Select)
    requires
        s.distinct is None,
        s.top is None,
        forall|i: int| 0 <= i < s.projection@.len() ==> s.projection@[i] is Wildcard,
        forall|i: int| 0 <= i < s.from@.len() ==> plain_from_item(s.from@[i]),
        s.lateral_views@.len() == 0,
        s.prewhere is None,
        s.selection is None,
        s.group_by matches GroupByExpr::Expressions(es) && es@.len() == 0,
        s.cluster_by@.len() == 0,
        s.distribute_by@.len() == 0,
        s.sort_by@.len() == 0,
        s.having is None,
        s.named_window@.len() == 0,
        s.qualify is None,
        s.connect_by is None,
    ensures
        select_out(s) == m_select(s.text@),
{
    lemma_wildcards_contribute_nothing(s.projection@);
    lemma_plain_tables_contribute_nothing(s.from@);
    assert(select_out(s) =~= m_select(s.text@));
}

/// The clauses of a SELECT block other than its WHERE and FROM contribute
/// nothing to the walk: absent, or holding nothing a nested query could
/// hide in.
pub open spec fn quiet_clauses(s: Select) -> bool {
    &&& opt_distinct_out(s.distinct) == m_empty()
    &&& opt_top_out(s.top) == m_empty()
    &&& select_items_out(s.projection@) == m_empty()
    &&& lateral_views_out(s.lateral_views@) == m_empty()
    &&& opt_expr_out(s.prewhere) == m_empty()
    &&& group_by_expr_out(s.group_by) == m_empty()
    &&& exprs_out(s.cluster_by@) == m_empty()
    &&& exprs_out(s.distribute_by@) == m_empty()
    &&& exprs_out(s.sort_by@) == m_empty()
    &&& opt_expr_out(s.having) == m_empty()
    &&& named_window_definitions_out(s.named_window@) == m_empty()
    &&& opt_expr_out(s.qualify) == m_empty()
    &&& opt_connect_by_out(s.connect_by) == m_empty()
}

/// A SELECT over one derived table (a subquery in FROM) whose inner query is
/// itself one plain SELECT yields exactly two statements: the outer SELECT's
/// text first, then the inner one's, neither tied to any WITH clause.
#[verifier::rlimit(100)]
pub proof fn lemma_derived_table_pair(s: Select, inner_text: Seq<char>)
    requires
        quiet_clauses(s),
        opt_expr_out(s.selection) == m_empty(),
        s.from@.len() == 1,
        s.from@[0].joins@.len() == 0,
        s.from@[0].relation matches TableFactor::Derived { subquery } && query_out(*subquery)
            == m_select(inner_text),
    ensures
        select_out(s).withs == Seq::<Seq<char>>::empty(),
        select_out(s).selects == seq![
            SelModel { text: s.text@, with_text: Option::None },
            SelModel { text: inner_text, with_text: Option::None },
        ],
{
    let twj = s.from@[0];
    assert(joins_out(twj.joins@) == m_empty());
    assert(table_with_joins_out(twj) == m_select(inner_text));
    assert(s.from@.subrange(1, 1) =~= Seq::<crate::ast::TableWithJoins>::empty());
    assert(table_with_joins_list_out(s.from@.subrange(1, 1)) == m_empty());
    assert(table_with_joins_list_out(s.from@) == m_select(inner_text));
    assert(select_out(s) =~= (Model {
        withs: Seq::<Seq<char>>::empty(),
        selects: seq![
            SelModel { text: s.text@, with_text: Option::None },
            SelModel { text: inner_text, with_text: Option::None },
        ],
    }));
}

/// A query of the form `WITH cte AS (...) SELECT ... FROM cte`, with one
/// plain SELECT as the CTE body and one plain SELECT as the query body,
/// yields the WITH clause's text and two statements: the CTE body's SELECT
/// (in no WITH scope, it can run on its own), then the outer SELECT, tied to
/// the WITH clause; so the outer one materializes with the WITH text in
/// front, and re-parsing that prefixed text resolves its CTE references.
#[verifier::rlimit(100)]
pub proof fn lemma_cte_select_pair(q: Query, cte_text: Seq<char>, outer_text: Seq<char>)
    requires
        q.with matches Option::Some(w) && ({
            &&& w.cte_tables@.len() == 1
            &&& query_out(*w.cte_tables@[0].query) == m_select(cte_text)
        }),
        (*q.body) matches SetExpr::Select(sel) && select_out(*sel) == m_select(outer_text),
        opt_order_by_out(q.order_by) == m_empty(),
        opt_expr_out(q.limit) == m_empty(),
        exprs_out(q.limit_by@) == m_empty(),
        opt_offset_out(q.offset) == m_empty(),
        opt_fetch_out(q.fetch) == m_empty(),
    ensures
        query_out(q).withs == seq![q.with->Some_0.text@],
        query_out(q).selects == seq![
            SelModel { text: cte_text, with_text: Option::None },
            SelModel { text: outer_text, with_text: Option::Some(q.with->Some_0.text@) },
        ],
        prefixed_all(query_out(q).selects) == seq![
            cte_text,
            q.with->Some_0.text@ + " "@ + outer_text,
        ],
{
    let w = q.with->Some_0;
    let cs = w.cte_tables@;
    assert(cs.subrange(1, 1) =~= Seq::<crate::ast::Cte>::empty());
    assert(ctes_out(cs.subrange(1, 1)) == m_empty());
    assert(crate::walk::cte_out(cs[0]) == m_select(cte_text));
    assert(ctes_out(cs) == m_select(cte_text));
    assert(with_out(w) =~= (Model {
        withs: seq![w.text@],
        selects: seq![SelModel { text: cte_text, with_text: Option::None }],
    }));
    assert(setexpr_out(*q.body) == m_select(outer_text));
    let rest = m_select(outer_text);
    assert(m_add(rest, opt_order_by_out(q.order_by)) == rest);
    assert(m_add(rest, opt_expr_out(q.limit)) == rest);
    assert(m_add(rest, exprs_out(q.limit_by@)) == rest);
    assert(m_add(rest, opt_offset_out(q.offset)) == rest);
    assert(m_add(rest, opt_fetch_out(q.fetch)) == rest);
    assert(attach_all(rest.selects, w.text@) =~= seq![
        SelModel { text: outer_text, with_text: Option::Some(w.text@) },
    ]);
    assert(query_out(q) =~= (Model {
        withs: seq![w.text@],
        selects: seq![
            SelModel { text: cte_text, with_text: Option::None },
            SelModel { text: outer_text, with_text: Option::Some(w.text@) },
        ],
    }));
    assert(prefixed_all(query_out(q).selects) =~= seq![
        cte_text,
        w.text@ + " "@ + outer_text,
    ]);
}

/// A SELECT whose WHERE clause holds an IN-subquery over one plain inner
/// SELECT yields exactly two statements: the outer SELECT's text first, then
/// the inner one's; the inner one is tied to no WITH clause and its
/// standalone text is its own text alone, free of the outer query.
#[verifier::rlimit(100)]
pub proof fn lemma_in_subquery_pair(s: Select, inner_text: Seq<char>)
    requires
        quiet_clauses(s),
        table_with_joins_list_out(s.from@) == m_empty(),
        s.selection matches Option::Some(cond) && cond matches Expr::InSubquery {
            expr,
            subquery,
        } && expr_out(*expr) == m_empty() && query_out(*subquery) == m_select(inner_text),
    ensures
        select_out(s).withs == Seq::<Seq<char>>::empty(),
        select_out(s).selects == seq![
            SelModel { text: s.text@, with_text: Option::None },
            SelModel { text: inner_text, with_text: Option::None },
        ],
        prefixed(select_out(s).selects[1]) == inner_text,
{
    assert(opt_expr_out(s.selection) == m_select(inner_text));
    assert(select_out(s) =~= (Model {
        withs: Seq::<Seq<char>>::empty(),
        selects: seq![
            SelModel { text: s.text@, with_text: Option::None },
            SelModel { text: inner_text, with_text: Option::None },
        ],
    }));
}

/// A SELECT whose FROM clause carries one LEFT JOIN whose ON predicate hides
/// one plain SELECT yields exactly two statements: the outer SELECT's text
/// first, then the subquery's, found even though it sits in no FROM, WHERE or
/// projection position.
#[verifier::rlimit(100)]
pub proof fn lemma_join_on_subquery_found(s: Select, inner_text: Seq<char>)
    requires
        quiet_clauses(s),
        opt_expr_out(s.selection) == m_empty(),
        s.from@.len() == 1,
        table_factor_out(s.from@[0].relation) == m_empty(),
        s.from@[0].joins@.len() == 1,
        table_factor_out(s.from@[0].joins@[0].relation) == m_empty(),
        s.from@[0].joins@[0].join_operator matches JoinOperator::LeftOuter(c) && c
            matches JoinConstraint::On(e) && expr_out(e) == m_select(inner_text),
    ensures
        select_out(s).withs == Seq::<Seq<char>>::empty(),
        select_out(s).selects == seq![
            SelModel { text: s.text@, with_text: Option::None },
            SelModel { text: inner_text, with_text: Option::None },
        ],
{
    let twj = s.from@[0];
    let js = twj.joins@;
    let jo = js[0].join_operator;
    let c = jo->LeftOuter_0;
    let e = c->On_0;
    assert(crate::walk::join_constraint_out(c) == expr_out(e));
    assert(crate::walk::join_operator_out(jo) == crate::walk::join_constraint_out(c));
    assert(crate::walk::join_out(js[0]) == m_select(inner_text));
    assert(js.subrange(1, 1) =~= Seq::<crate::ast::Join>::empty());
    assert(joins_out(js.subrange(1, 1)) == m_empty());
    assert(joins_out(js) == m_select(inner_text));
    assert(table_with_joins_out(twj) == m_select(inner_text));
    assert(s.from@.subrange(1, 1) =~= Seq::<crate::ast::TableWithJoins>::empty());
    assert(table_with_joins_list_out(s.from@.subrange(1, 1)) == m_empty());
    assert(table_with_joins_list_out(s.from@) == m_select(inner_text));
    assert(select_out(s) =~= (Model {
        withs: Seq::<Seq<char>>::empty(),
        selects: seq![
            SelModel { text: s.text@, with_text: Option::None },
            SelModel { text: inner_text, with_text: Option::None },
        ],
    }));
}

} // verus!
