//! Reading the rows of a page one after the other, up to the first that fails.

use vstd::prelude::*;
use crate::error::CrawlError;

verus! {

/// What one row of a page contributes.
pub enum Step<T> {
    /// The row is passed over.
    Skip,
    /// The row gives a value.
    Take(T),
    /// The row cannot be read; no row after it is looked at.
    Fail(CrawlError),
}

/// What the rows of a page give together.
pub struct Gathered<T> {
    /// The values of the rows before the first that failed, in order.
    pub taken: Seq<T>,
    /// Why the first failing row failed.
    pub failure: Option<CrawlError>,
}

/// The values that `steps` give up to the first failure.
pub open spec fn gathered<T>(steps: Seq<Step<T>>) -> Gathered<T>
    decreases steps.len(),
{
    if steps.len() == 0 {
        Gathered { taken: Seq::empty(), failure: None }
    } else {
        let before = gathered(steps.drop_last());
        if before.failure is Some {
            before
        } else {
            match steps.last() {
                Step::Skip => before,
                Step::Take(t) => Gathered { taken: before.taken.push(t), failure: None },
                Step::Fail(e) => Gathered { taken: before.taken, failure: Some(e) },
            }
        }
    }
}

/// All the values of `steps`, or the first failure.
pub open spec fn gathered_all<T>(steps: Seq<Step<T>>) -> Result<Seq<T>, CrawlError> {
    match gathered(steps).failure {
        Some(e) => Err(e),
        None => Ok(gathered(steps).taken),
    }
}

/// Once a prefix of the steps has failed, the steps after it change nothing.
pub proof fn lemma_gathered_stops<T>(steps: Seq<Step<T>>, k: int)
    requires
        0 <= k <= steps.len(),
        gathered(steps.take(k)).failure is Some,
    ensures
        gathered(steps) == gathered(steps.take(k)),
    decreases steps.len(),
{
    if k == steps.len() {
        assert(steps.take(k) =~= steps);
    } else {
        assert(steps.drop_last().take(k) =~= steps.take(k));
        lemma_gathered_stops(steps.drop_last(), k);
    }
}

/// What one more step adds to the steps before it.
pub proof fn lemma_gathered_next<T>(steps: Seq<Step<T>>, k: int)
    requires
        0 <= k < steps.len(),
        gathered(steps.take(k)).failure is None,
    ensures
        gathered(steps.take(k + 1)) == match steps[k] {
            Step::Skip => gathered(steps.take(k)),
            Step::Take(t) => Gathered {
                taken: gathered(steps.take(k)).taken.push(t),
                failure: None,
            },
            Step::Fail(e) => Gathered { taken: gathered(steps.take(k)).taken, failure: Some(e) },
        },
{
    assert(steps.take(k + 1).drop_last() =~= steps.take(k));
    assert(steps.take(k + 1).last() == steps[k]);
}

/// Steps that are all passed over give nothing.
pub proof fn lemma_all_skipped<T>(steps: Seq<Step<T>>)
    requires
        forall|i: int| 0 <= i < steps.len() ==> steps[i] is Skip,
    ensures
        gathered(steps).taken.len() == 0,
        gathered(steps).failure is None,
    decreases steps.len(),
{
    if steps.len() > 0 {
        lemma_all_skipped(steps.drop_last());
    }
}

} // verus!
