//! Batched one-to-many association loading: building the single batched
//! child query, and re-attaching the returned child rows to their
//! parents by key.
//!
//! The caller loads the parent rows, collects their primary keys,
//! executes the query built by [`preload_query`] once, and hands the
//! child rows' foreign keys to [`attach_children`]; entry `i` of the
//! result lists the positions of the children that belong to parent `i`,
//! so exactly two round trips load any number of parents.

use vstd::prelude::*;
use crate::builder::{QueryBuilder, built_query, number_exprs, select_table};
use crate::query::{
    ExprView, QueryStmt, QueryStmtView, SelectItem, SelectView, SetExprView, TableFactorView,
    TableWithJoinsView,
};

verus! {

/// The positions among the first `n` children whose foreign key equals
/// `key`, in increasing order.
pub open spec fn matching_indices_upto(children: Seq<i32>, key: i32, n: int) -> Seq<int>
    decreases n,
{
    if n <= 0 {
        Seq::<int>::empty()
    } else if children[n - 1] == key {
        matching_indices_upto(children, key, n - 1).push(n - 1)
    } else {
        matching_indices_upto(children, key, n - 1)
    }
}

/// The positions of the children whose foreign key equals `key`, in
/// increasing order.
pub open spec fn matching_indices(children: Seq<i32>, key: i32) -> Seq<int> {
    matching_indices_upto(children, key, children.len() as int)
}

/// The positions of the children carrying `key`, in query order.
#[verifier::loop_isolation(false)]
pub fn indices_with_key(child_keys: &Vec<i32>, key: i32) -> (r: Vec<usize>)
    ensures
        r@.map_values(|u: usize| u as int) == matching_indices(child_keys@, key),
{
    let mut out: Vec<usize> = Vec::new();
    let mut j: usize = 0;
    while j < child_keys.len()
        invariant
            j <= child_keys@.len(),
            out@.map_values(|u: usize| u as int) =~= matching_indices_upto(
                child_keys@,
                key,
                j as int,
            ),
        decreases child_keys@.len() - j,
    {
        if child_keys[j] == key {
            out.push(j);
        }
        proof {
            assert(out@.map_values(|u: usize| u as int) =~= matching_indices_upto(
                child_keys@,
                key,
                j as int + 1,
            ));
        }
        j += 1;
    }
    out
}

/// Groups the child rows under their parents: entry `i` lists the
/// positions of the children whose foreign key equals `parent_keys[i]`,
/// in query order. A parent with no matching children receives the
/// empty list rather than failing.
#[verifier::loop_isolation(false)]
pub fn attach_children(parent_keys: &Vec<i32>, child_keys: &Vec<i32>) -> (r: Vec<Vec<usize>>)
    ensures
        r@.len() == parent_keys@.len(),
        forall|i: int|
            0 <= i < parent_keys@.len() ==> (#[trigger] r@[i])@.map_values(|u: usize| u as int)
                == matching_indices(child_keys@, parent_keys@[i]),
{
    let mut out: Vec<Vec<usize>> = Vec::new();
    let mut i: usize = 0;
    while i < parent_keys.len()
        invariant
            i <= parent_keys@.len(),
            out@.len() == i,
            forall|k: int|
                0 <= k < i ==> (#[trigger] out@[k])@.map_values(|u: usize| u as int)
                    == matching_indices(child_keys@, parent_keys@[k]),
        decreases parent_keys@.len() - i,
    {
        let group = indices_with_key(child_keys, parent_keys[i]);
        out.push(group);
        i += 1;
    }
    out
}

/// The model of the batched child query:
/// `SELECT * FROM <table> WHERE <foreign_key> IN (<ids>)`.
pub open spec fn preload_query_view(
    table: Seq<char>,
    foreign_key: Seq<char>,
    ids: Seq<i32>,
) -> QueryStmtView {
    QueryStmtView {
        body: SetExprView::Select(
            SelectView {
                projection: seq![SelectItem::Wildcard],
                from: seq![
                    TableWithJoinsView { relation: TableFactorView::Table { name: seq![table] } },
                ],
                selection: Some(
                    ExprView::InList {
                        expr: Box::new(ExprView::Identifier(foreign_key)),
                        list: number_exprs(ids),
                        negated: false,
                    },
                ),
                group_by: None,
                sort_by: Seq::<ExprView>::empty(),
                having: None,
            },
        ),
        order_by: None,
        limit: None,
    }
}

/// Builds the one batched child query for a has-many relation over the
/// collected parent keys.
pub fn preload_query(table_name: String, foreign_key: String, ids: Vec<i32>) -> (q: QueryStmt)
    ensures
        q@ == preload_query_view(table_name@, foreign_key@, ids@),
{
    let ghost t = table_name@;
    let ghost fk = foreign_key@;
    let ghost keys = ids@;
    let b = select_table(table_name).where_(foreign_key).in_list(ids);
    let q = b.build();
    proof {
        assert(q@ =~= preload_query_view(t, fk, keys));
    }
    q
}

/// Every attached position is a real child position carrying the
/// parent's key; the positions come in strictly increasing query order;
/// and every child carrying the key is attached: grouping by key agrees
/// with filtering a join.
pub proof fn lemma_matching_indices_correct(children: Seq<i32>, key: i32)
    ensures
        forall|k: int|
            0 <= k < matching_indices(children, key).len() ==> 0 <= #[trigger] matching_indices(
                children,
                key,
            )[k] < children.len() && children[matching_indices(children, key)[k]] == key,
        forall|k1: int, k2: int|
            0 <= k1 < k2 < matching_indices(children, key).len() ==> matching_indices(
                children,
                key,
            )[k1] < matching_indices(children, key)[k2],
        forall|j: int|
            0 <= j < children.len() && children[j] == key ==> matching_indices(
                children,
                key,
            ).contains(j),
{
    lemma_matching_indices_upto_correct(children, key, children.len() as int);
}

proof fn lemma_matching_indices_upto_correct(children: Seq<i32>, key: i32, n: int)
    requires
        0 <= n <= children.len(),
    ensures
        forall|k: int|
            0 <= k < matching_indices_upto(children, key, n).len() ==> 0
                <= #[trigger] matching_indices_upto(children, key, n)[k] < n && children[
                matching_indices_upto(children, key, n)[k]
            ] == key,
        forall|k1: int, k2: int|
            0 <= k1 < k2 < matching_indices_upto(children, key, n).len()
                ==> matching_indices_upto(children, key, n)[k1] < matching_indices_upto(
                children,
                key,
                n,
            )[k2],
        forall|j: int|
            0 <= j < n && children[j] == key ==> matching_indices_upto(
                children,
                key,
                n,
            ).contains(j),
    decreases n,
{
    if n > 0 {
        lemma_matching_indices_upto_correct(children, key, n - 1);
        let prev = matching_indices_upto(children, key, n - 1);
        let cur = matching_indices_upto(children, key, n);
        assert forall|j: int| 0 <= j < n && children[j] == key implies cur.contains(j) by {
            if j < n - 1 {
                assert(prev.contains(j));
                let w = choose|w: int| 0 <= w < prev.len() && prev[w] == j;
                assert(cur[w] == j);
            } else {
                assert(cur[cur.len() - 1] == j);
            }
        }
    }
}

/// A parent whose key no child carries is attached the empty list.
pub proof fn lemma_no_children_empty(children: Seq<i32>, key: i32)
    requires
        forall|j: int| 0 <= j < children.len() ==> children[j] != key,
    ensures
        matching_indices(children, key).len() == 0,
{
    lemma_no_children_upto_empty(children, key, children.len() as int);
}

proof fn lemma_no_children_upto_empty(children: Seq<i32>, key: i32, n: int)
    requires
        0 <= n <= children.len(),
        forall|j: int| 0 <= j < children.len() ==> children[j] != key,
    ensures
        matching_indices_upto(children, key, n).len() == 0,
    decreases n,
{
    if n > 0 {
        lemma_no_children_upto_empty(children, key, n - 1);
    }
}

} // verus!
