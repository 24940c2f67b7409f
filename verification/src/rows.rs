//! Tables: arrays of JSON values that decode row by row.

use crate::error::{fails_with, outcome, BeaErr, ErrorView, Origin};
use crate::json::{items_json, value_json, Json};
use vstd::prelude::*;

verus! {

/// A row of a table: a value that decodes from one JSON value.
pub trait Row: View + Sized {
    /// What [`Row::read`] makes of the JSON value `j`.
    spec fn row_of(j: Json) -> Result<Self::V, ErrorView>;

    /// The name under which the rows of this type report their errors.
    spec fn origin() -> Origin;

    /// Every row is an object: a value that is none is refused with
    /// `NotObject`.
    proof fn lemma_row_is_object(j: Json)
        requires
            !(j is Object),
        ensures
            fails_with(Self::row_of(j), ErrorView::NotObject { origin: Self::origin() }),
    ;

    /// Decodes one row.
    fn read(value: &serde_json::Value) -> (r: Result<Self, BeaErr>)
        ensures
            outcome(r) == Self::row_of(value_json(*value)),
    ;
}

/// The views of a sequence of rows.
pub open spec fn row_views<R: View>(rows: Seq<R>) -> Seq<R::V> {
    rows.map_values(|r: R| r@)
}

/// The rows that `items` decode to, in their order. The first item that does
/// not decode decides the error.
pub open spec fn rows_of<R: Row>(items: Seq<Json>) -> Result<Seq<R::V>, ErrorView>
    decreases items.len(),
{
    if items.len() == 0 {
        Ok(Seq::empty())
    } else {
        match rows_of::<R>(items.drop_last()) {
            Err(e) => Err(e),
            Ok(before) => match R::row_of(items.last()) {
                Err(e) => Err(e),
                Ok(row) => Ok(before.push(row)),
            },
        }
    }
}

/// A failure among the first items is the failure of the whole sequence.
pub proof fn lemma_rows_failure_stays<R: Row>(items: Seq<Json>, n: int)
    requires
        0 <= n <= items.len(),
        rows_of::<R>(items.take(n)) is Err,
    ensures
        rows_of::<R>(items) == rows_of::<R>(items.take(n)),
    decreases items.len(),
{
    if n < items.len() {
        assert(items.drop_last().take(n) == items.take(n));
        lemma_rows_failure_stays::<R>(items.drop_last(), n);
    } else {
        assert(items.take(n) == items);
    }
}

/// Where every item decodes, the sequence decodes.
pub proof fn lemma_rows_all_decode<R: Row>(items: Seq<Json>)
    requires
        forall|k: int| 0 <= k < items.len() ==> (#[trigger] R::row_of(items[k])) is Ok,
    ensures
        rows_of::<R>(items) is Ok,
    decreases items.len(),
{
    if items.len() > 0 {
        assert forall|k: int| 0 <= k < items.drop_last().len() implies (#[trigger] R::row_of(
            items.drop_last()[k],
        )) is Ok by {
            assert(items.drop_last()[k] == items[k]);
        }
        lemma_rows_all_decode::<R>(items.drop_last());
        assert(R::row_of(items[items.len() - 1]) is Ok);
    }
}

/// The first failure wins: where an item does not decode and every item
/// before it does, the error of that item is the error of the sequence,
/// whatever the items after it hold.
pub proof fn lemma_rows_first_failure<R: Row>(items: Seq<Json>, i: int)
    requires
        0 <= i < items.len(),
        R::row_of(items[i]) is Err,
        forall|k: int| 0 <= k < i ==> (#[trigger] R::row_of(items[k])) is Ok,
    ensures
        rows_of::<R>(items) == Err::<Seq<R::V>, _>(R::row_of(items[i])->Err_0),
{
    assert forall|k: int| 0 <= k < items.take(i).len() implies (#[trigger] R::row_of(
        items.take(i)[k],
    )) is Ok by {
        assert(items.take(i)[k] == items[k]);
    }
    lemma_rows_all_decode::<R>(items.take(i));
    assert(items.take(i + 1).drop_last() =~= items.take(i));
    assert(items.take(i + 1).last() == items[i]);
    lemma_rows_failure_stays::<R>(items, i + 1);
}

/// Where the sequence decodes, it has as many rows as items, and each row is
/// what its item decodes to.
pub proof fn lemma_rows_each<R: Row>(items: Seq<Json>)
    requires
        rows_of::<R>(items) is Ok,
    ensures
        rows_of::<R>(items)->Ok_0.len() == items.len(),
        forall|i: int|
            0 <= i < items.len() ==> #[trigger] R::row_of(items[i]) == Ok::<R::V, ErrorView>(
                rows_of::<R>(items)->Ok_0[i],
            ),
    decreases items.len(),
{
    if items.len() > 0 {
        lemma_rows_each::<R>(items.drop_last());
        assert forall|i: int| 0 <= i < items.len() implies #[trigger] R::row_of(items[i]) == Ok::<
            R::V,
            ErrorView,
        >(rows_of::<R>(items)->Ok_0[i]) by {
            if i < items.len() - 1 {
                assert(items.drop_last()[i] == items[i]);
            }
        }
    }
}

/// A copy of `rows`, row by row.
pub(crate) fn clone_rows<R: View + Clone>(rows: &Vec<R>) -> (r: Vec<R>)
    requires
        forall|a: R, b: R| call_ensures(R::clone, (&a,), b) ==> a@ == b@,
    ensures
        row_views(r@) == row_views(rows@),
{
    let mut out: Vec<R> = Vec::new();
    let mut i: usize = 0;
    while i < rows.len()
        invariant
            i <= rows.len(),
            forall|a: R, b: R| call_ensures(R::clone, (&a,), b) ==> a@ == b@,
            row_views(out@) == row_views(rows@).take(i as int),
        decreases rows.len() - i,
    {
        let ghost before = row_views(out@);
        let row = rows[i].clone();
        out.push(row);
        assert(row_views(out@) =~= before.push(row@));
        assert(row_views(rows@).take(i + 1) =~= row_views(rows@).take(i as int).push(
            rows@[i as int]@,
        ));
        i += 1;
    }
    assert(row_views(rows@).take(i as int) =~= row_views(rows@));
    out
}

/// Decodes every item of an array, in order, and stops at the first that
/// does not decode.
pub fn rows<R: Row>(items: &Vec<serde_json::Value>) -> (r: Result<Vec<R>, BeaErr>)
    ensures
        match r {
            Ok(v) => rows_of::<R>(items_json(items@)) == Ok::<_, ErrorView>(row_views(v@)),
            Err(e) => rows_of::<R>(items_json(items@)) == Err::<Seq<R::V>, _>(e@),
        },
{
    let mut out: Vec<R> = Vec::new();
    let mut i: usize = 0;
    assert(items_json(items@).take(0) =~= Seq::<Json>::empty());
    assert(row_views(out@) =~= Seq::<R::V>::empty());
    while i < items.len()
        invariant
            i <= items.len(),
            rows_of::<R>(items_json(items@).take(i as int)) == Ok::<_, ErrorView>(row_views(out@)),
        decreases items.len() - i,
    {
        let ghost all = items_json(items@);
        let ghost before = row_views(out@);
        assert(all.take(i + 1).drop_last() =~= all.take(i as int));
        assert(all.take(i + 1).last() == value_json(items@[i as int]));
        match R::read(&items[i]) {
            Ok(row) => {
                out.push(row);
                assert(row_views(out@) =~= before.push(row@));
            },
            Err(e) => {
                proof {
                    lemma_rows_failure_stays::<R>(all, i + 1);
                }
                return Err(e);
            },
        }
        i += 1;
    }
    assert(items_json(items@).take(i as int) =~= items_json(items@));
    Ok(out)
}

} // verus!
