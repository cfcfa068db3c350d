use vstd::prelude::*;
use crate::text::{join_seqs, lemma_join_push};
use crate::wrapper::{count_sql_text, custom_with_wheres, join_clause, limit_clause, offset_clause,
    order_clause, select_head, sql_text, where_clause, WrapperModel};

verus! {

/// Law: the predicates of a WHERE clause stand in call order, each exactly
/// once, with ` AND ` between consecutive predicates — accumulating one
/// more predicate appends exactly one ` AND ` and that predicate to the
/// joined text (the first predicate stands alone).
pub proof fn lemma_predicates_in_call_order(wheres: Seq<Seq<char>>, pred: Seq<char>)
    ensures
        join_seqs(wheres.push(pred), " AND "@) == if wheres.len() == 0 {
            pred
        } else {
            join_seqs(wheres, " AND "@) + " AND "@ + pred
        },
{
    lemma_join_push(wheres, " AND "@, pred);
}

/// Law: every generated statement decomposes into its head, the join
/// clauses, the WHERE clause, the ordering and the paging window, in that
/// fixed order — so the accumulated predicates reach the statement through
/// `where_clause` and nothing else.
pub proof fn lemma_generated_clause_order(m: WrapperModel, table: Seq<char>)
    requires
        m.custom is None,
    ensures
        sql_text(m, table) == select_head(m.selects, table) + join_clause(m.joins) + where_clause(
            m.wheres,
        ) + order_clause(m.orders) + limit_clause(m.limit) + offset_clause(m.offset),
{
    assert(sql_text(m, table) =~= select_head(m.selects, table) + join_clause(m.joins)
        + where_clause(m.wheres) + order_clause(m.orders) + limit_clause(m.limit) + offset_clause(
        m.offset,
    ));
}

/// Law: a statement with a custom body decomposes into that body with the
/// predicates merged in, then the ordering, then the paging window — the
/// custom body replaces only the generated head, never the appended
/// clauses.
pub proof fn lemma_custom_clause_order(m: WrapperModel, body: Seq<char>, table: Seq<char>)
    requires
        m.custom == Some(body),
    ensures
        sql_text(m, table) == custom_with_wheres(body, m.wheres) + order_clause(m.orders)
            + limit_clause(m.limit) + offset_clause(m.offset),
{
    assert(sql_text(m, table) =~= custom_with_wheres(body, m.wheres) + order_clause(m.orders)
        + limit_clause(m.limit) + offset_clause(m.offset));
}

/// Law: the count statement never carries ORDER BY, LIMIT or OFFSET — it
/// depends only on the custom body, the join clauses and the predicates,
/// never on the ordering, the paging window or the projection.
pub proof fn lemma_count_sql_ignores_paging(a: WrapperModel, b: WrapperModel, table: Seq<char>)
    requires
        a.custom == b.custom,
        a.wheres == b.wheres,
        a.joins == b.joins,
    ensures
        count_sql_text(a, table) == count_sql_text(b, table),
{
}

} // verus!
