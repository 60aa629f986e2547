//! Runs of resumptions, as a driver sees them.
use vstd::prelude::*;
use crate::step::Step;

verus! {

/// The reports of a computation over a run of its resumptions, where
/// `inner[i]` is the computation after its `i`-th resumption with what that
/// resumption reported.
pub open spec fn steps<D, T>(inner: Seq<(D, Step<T>)>) -> Seq<Step<T>> {
    inner.map_values(|event: (D, Step<T>)| event.1)
}

/// The number of suspensions that `run` reports before its first completion.
pub open spec fn suspensions<T>(run: Seq<Step<T>>) -> nat
    decreases run.len(),
{
    if run.len() == 0 || run[0] is Ready {
        0
    } else {
        1 + suspensions(run.drop_first())
    }
}

/// What a driver obtains that resumes until the first completion: that
/// completion's value, or nothing where `run` ends while still suspended.
pub open spec fn outcome<T>(run: Seq<Step<T>>) -> Option<T>
    decreases run.len(),
{
    if run.len() == 0 {
        None
    } else {
        match run[0] {
            Step::Ready(value) => Some(value),
            Step::Pending => outcome(run.drop_first()),
        }
    }
}

} // verus!
