//! Facts about the rows of a table: the first row that meets a condition,
//! and the rows that a condition selects.

use vstd::prelude::*;

verus! {

/// Row `k` is the first that meets `pred`.
pub open spec fn is_first<A>(rows: Seq<A>, pred: spec_fn(A) -> bool, k: int) -> bool {
    &&& 0 <= k < rows.len()
    &&& pred(rows[k])
    &&& forall|j: int| 0 <= j < k ==> !pred(#[trigger] rows[j])
}

/// Whether some row meets `pred`.
pub open spec fn has_some<A>(rows: Seq<A>, pred: spec_fn(A) -> bool) -> bool {
    exists|k: int| is_first(rows, pred, k)
}

/// The place of the first row that meets `pred`.
pub open spec fn first_index<A>(rows: Seq<A>, pred: spec_fn(A) -> bool) -> int {
    choose|k: int| is_first(rows, pred, k)
}

/// The first row that meets `pred`.
pub open spec fn first_of<A>(rows: Seq<A>, pred: spec_fn(A) -> bool) -> Option<A> {
    if has_some(rows, pred) {
        Some(rows[first_index(rows, pred)])
    } else {
        None
    }
}

/// There is only one first row.
pub proof fn lemma_first<A>(rows: Seq<A>, pred: spec_fn(A) -> bool, k: int)
    requires
        is_first(rows, pred, k),
    ensures
        has_some(rows, pred),
        first_index(rows, pred) == k,
        first_of(rows, pred) == Some(rows[k]),
{
    let c = first_index(rows, pred);
    assert(is_first(rows, pred, c));
    if c < k {
        assert(!pred(rows[c]));
    } else if k < c {
        assert(!pred(rows[k]));
    }
}

/// Where no row meets the condition, none is the first.
pub proof fn lemma_none<A>(rows: Seq<A>, pred: spec_fn(A) -> bool)
    requires
        forall|j: int| 0 <= j < rows.len() ==> !pred(#[trigger] rows[j]),
    ensures
        !has_some(rows, pred),
        first_of(rows, pred) == None::<A>,
{
}

/// Where some row meets the condition, one of them is the first.
pub proof fn lemma_some<A>(rows: Seq<A>, pred: spec_fn(A) -> bool, k: int)
    requires
        0 <= k < rows.len(),
        pred(rows[k]),
    ensures
        has_some(rows, pred),
        0 <= first_index(rows, pred) <= k,
        is_first(rows, pred, first_index(rows, pred)),
    decreases k,
{
    if forall|j: int| 0 <= j < k ==> !pred(#[trigger] rows[j]) {
        assert(is_first(rows, pred, k));
        lemma_first(rows, pred, k);
    } else {
        let j = choose|j: int| 0 <= j < k && pred(#[trigger] rows[j]);
        lemma_some(rows, pred, j);
    }
}

/// What a condition selects of one row.
pub open spec fn selected_of<A>(row: A, pred: spec_fn(A) -> bool) -> Seq<A> {
    if pred(row) {
        seq![row]
    } else {
        Seq::empty()
    }
}

/// The selection from a table with one more row.
pub proof fn lemma_filter_push<A>(rows: Seq<A>, row: A, pred: spec_fn(A) -> bool)
    ensures
        rows.push(row).filter(pred) == rows.filter(pred) + selected_of(row, pred),
{
    reveal(Seq::filter);
    assert(rows.push(row).drop_last() =~= rows);
    assert(rows.filter(pred) + Seq::<A>::empty() =~= rows.filter(pred));
    assert(rows.filter(pred) + seq![row] =~= rows.filter(pred).push(row));
}

/// The selection from a table is the selection before row `i`, of row `i`,
/// and after it.
pub proof fn lemma_filter_parts<A>(rows: Seq<A>, i: int, pred: spec_fn(A) -> bool)
    requires
        0 <= i < rows.len(),
    ensures
        rows.filter(pred) == rows.take(i).filter(pred) + selected_of(rows[i], pred)
            + rows.skip(i + 1).filter(pred),
{
    let head = rows.take(i);
    let tail = rows.skip(i + 1);
    assert(rows =~= head.push(rows[i]) + tail);
    Seq::filter_distributes_over_add(head.push(rows[i]), tail, pred);
    lemma_filter_push(head, rows[i], pred);
}

/// Taking row `i` away takes away what the condition selects of it.
pub proof fn lemma_filter_remove<A>(rows: Seq<A>, i: int, pred: spec_fn(A) -> bool)
    requires
        0 <= i < rows.len(),
    ensures
        rows.remove(i).filter(pred) == rows.take(i).filter(pred) + rows.skip(i + 1).filter(pred),
        rows.remove(i).filter(pred).len() + selected_of(rows[i], pred).len() == rows.filter(
            pred,
        ).len(),
{
    let head = rows.take(i);
    let tail = rows.skip(i + 1);
    assert(rows.remove(i) =~= head + tail);
    Seq::filter_distributes_over_add(head, tail, pred);
    lemma_filter_parts(rows, i, pred);
}

/// Writing row `i` anew changes the selection at that row only.
pub proof fn lemma_filter_update<A>(rows: Seq<A>, i: int, row: A, pred: spec_fn(A) -> bool)
    requires
        0 <= i < rows.len(),
    ensures
        rows.update(i, row).filter(pred) == rows.take(i).filter(pred) + selected_of(row, pred)
            + rows.skip(i + 1).filter(pred),
        pred(row) == pred(rows[i]) ==> rows.update(i, row).filter(pred).len() == rows.filter(
            pred,
        ).len(),
{
    let written = rows.update(i, row);
    assert(written.take(i) =~= rows.take(i));
    assert(written.skip(i + 1) =~= rows.skip(i + 1));
    lemma_filter_parts(written, i, pred);
    lemma_filter_parts(rows, i, pred);
}

/// A condition that no row meets selects nothing.
pub proof fn lemma_filter_nothing<A>(rows: Seq<A>, pred: spec_fn(A) -> bool)
    requires
        forall|j: int| 0 <= j < rows.len() ==> !pred(#[trigger] rows[j]),
    ensures
        rows.filter(pred).len() == 0,
    decreases rows.len(),
{
    reveal(Seq::filter);
    if rows.len() > 0 {
        lemma_filter_nothing(rows.drop_last(), pred);
    }
}

} // verus!
