//! Rows in the order in which they were written, and how to find one.

use vstd::prelude::*;

verus! {

/// The values of a sequence of rows.
pub open spec fn views<T: View>(rows: Seq<T>) -> Seq<T::V> {
    Seq::new(rows.len(), |i: int| rows[i]@)
}

/// The rows from the place `from` on; none where the table is shorter.
pub open spec fn rows_since<A>(rows: Seq<A>, from: int) -> Seq<A> {
    if 0 <= from <= rows.len() {
        rows.skip(from)
    } else {
        Seq::empty()
    }
}

/// The values of rows after one more was written.
pub proof fn lemma_views_push<T: View>(rows: Seq<T>, row: T)
    ensures
        views(rows.push(row)) == views(rows).push(row@),
{
    assert(views(rows.push(row)) =~= views(rows).push(row@));
}

/// The place of the first row that is `wanted`, if there is one.
pub open spec fn first_match<A>(rows: Seq<A>, wanted: spec_fn(A) -> bool) -> Option<int>
    decreases rows.len(),
{
    if rows.len() == 0 {
        None
    } else {
        match first_match(rows.drop_last(), wanted) {
            Some(at) => Some(at),
            None => if wanted(rows.last()) {
                Some(rows.len() - 1)
            } else {
                None
            },
        }
    }
}

/// The place of the last row that is `wanted`, if there is one.
pub open spec fn last_match<A>(rows: Seq<A>, wanted: spec_fn(A) -> bool) -> Option<int>
    decreases rows.len(),
{
    if rows.len() == 0 {
        None
    } else if wanted(rows.last()) {
        Some(rows.len() - 1)
    } else {
        last_match(rows.drop_last(), wanted)
    }
}

/// What the first match is: a wanted row with none before it, or the sign
/// that no row is wanted.
pub proof fn lemma_first_match<A>(rows: Seq<A>, wanted: spec_fn(A) -> bool)
    ensures
        match first_match(rows, wanted) {
            Some(at) => {
                &&& 0 <= at < rows.len()
                &&& wanted(rows[at])
                &&& forall|i: int| 0 <= i < at ==> !wanted(#[trigger] rows[i])
            },
            None => forall|i: int| 0 <= i < rows.len() ==> !wanted(#[trigger] rows[i]),
        },
    decreases rows.len(),
{
    if rows.len() > 0 {
        lemma_first_match(rows.drop_last(), wanted);
        match first_match(rows.drop_last(), wanted) {
            Some(at) => {
                assert forall|i: int| 0 <= i < at implies !wanted(#[trigger] rows[i]) by {
                    assert(rows[i] == rows.drop_last()[i]);
                }
            },
            None => {
                assert forall|i: int| 0 <= i < rows.len() - 1 implies !wanted(
                    #[trigger] rows[i],
                ) by {
                    assert(rows[i] == rows.drop_last()[i]);
                }
            },
        }
    }
}

/// A wanted row with none before it is the first match.
pub proof fn lemma_first_match_at<A>(rows: Seq<A>, wanted: spec_fn(A) -> bool, at: int)
    requires
        0 <= at < rows.len(),
        wanted(rows[at]),
        forall|i: int| 0 <= i < at ==> !wanted(#[trigger] rows[i]),
    ensures
        first_match(rows, wanted) == Some(at),
{
    lemma_first_match(rows, wanted);
}

/// Where no row is wanted, there is no first match.
pub proof fn lemma_first_match_none<A>(rows: Seq<A>, wanted: spec_fn(A) -> bool)
    requires
        forall|i: int| 0 <= i < rows.len() ==> !wanted(#[trigger] rows[i]),
    ensures
        first_match(rows, wanted) is None,
{
    lemma_first_match(rows, wanted);
}

/// The first match after one more row was written.
pub proof fn lemma_first_match_push<A>(rows: Seq<A>, wanted: spec_fn(A) -> bool, row: A)
    ensures
        first_match(rows.push(row), wanted) == match first_match(rows, wanted) {
            Some(at) => Some(at),
            None => if wanted(row) {
                Some(rows.len() as int)
            } else {
                None
            },
        },
{
    assert(rows.push(row).drop_last() =~= rows);
}

/// What the last match is: a wanted row with none behind it, or the sign
/// that no row is wanted.
pub proof fn lemma_last_match<A>(rows: Seq<A>, wanted: spec_fn(A) -> bool)
    ensures
        match last_match(rows, wanted) {
            Some(at) => {
                &&& 0 <= at < rows.len()
                &&& wanted(rows[at])
                &&& forall|i: int| at < i < rows.len() ==> !wanted(#[trigger] rows[i])
            },
            None => forall|i: int| 0 <= i < rows.len() ==> !wanted(#[trigger] rows[i]),
        },
    decreases rows.len(),
{
    if rows.len() > 0 && !wanted(rows.last()) {
        lemma_last_match(rows.drop_last(), wanted);
        match last_match(rows.drop_last(), wanted) {
            Some(at) => {
                assert forall|i: int| at < i < rows.len() implies !wanted(#[trigger] rows[i]) by {
                    if i < rows.len() - 1 {
                        assert(rows[i] == rows.drop_last()[i]);
                    }
                }
            },
            None => {
                assert forall|i: int| 0 <= i < rows.len() implies !wanted(#[trigger] rows[i]) by {
                    if i < rows.len() - 1 {
                        assert(rows[i] == rows.drop_last()[i]);
                    }
                }
            },
        }
    }
}

/// A wanted row with none behind it is the last match.
pub proof fn lemma_last_match_at<A>(rows: Seq<A>, wanted: spec_fn(A) -> bool, at: int)
    requires
        0 <= at < rows.len(),
        wanted(rows[at]),
        forall|i: int| at < i < rows.len() ==> !wanted(#[trigger] rows[i]),
    ensures
        last_match(rows, wanted) == Some(at),
{
    lemma_last_match(rows, wanted);
}

/// Where no row is wanted, there is no last match.
pub proof fn lemma_last_match_none<A>(rows: Seq<A>, wanted: spec_fn(A) -> bool)
    requires
        forall|i: int| 0 <= i < rows.len() ==> !wanted(#[trigger] rows[i]),
    ensures
        last_match(rows, wanted) is None,
{
    lemma_last_match(rows, wanted);
}

} // verus!
