//! What holds of the adapters over whole runs of resumptions.
use vstd::prelude::*;
use crate::driving::{outcome, steps, suspensions};
use crate::fallible::TransposedResult;
use crate::optional::TransposedOption;
use crate::step::Step;

verus! {

/// An adapter that holds a computation reports, resumption by resumption,
/// what that computation reports, with a completion's value wrapped in `Some`.
pub proof fn lemma_present_reports<D, T>(held: D, inner: Seq<(D, Step<T>)>)
    ensures
        TransposedOption::<D>::reports(Some(held), inner) == inner.map_values(
            |event: (D, Step<T>)| event.1.wrap_some(),
        ),
    decreases inner.len(),
{
    let wrapped = inner.map_values(|event: (D, Step<T>)| event.1.wrap_some());
    if inner.len() != 0 {
        let rest = inner.drop_first();
        lemma_present_reports(inner[0].0, rest);
        assert(rest.map_values(|event: (D, Step<T>)| event.1.wrap_some()) == wrapped.drop_first());
        assert(wrapped == seq![wrapped[0]] + wrapped.drop_first());
    }
}

/// Wrapping every report of a run in `Some` leaves the number of suspensions
/// as it is and wraps the outcome.
pub proof fn lemma_wrap_some_run<T>(run: Seq<Step<T>>)
    ensures
        suspensions(run.map_values(|step: Step<T>| step.wrap_some())) == suspensions(run),
        outcome(run.map_values(|step: Step<T>| step.wrap_some())) == match outcome(run) {
            Some(value) => Some(Some(value)),
            None => None,
        },
    decreases run.len(),
{
    let wrapped = run.map_values(|step: Step<T>| step.wrap_some());
    if run.len() != 0 && run[0] is Pending {
        lemma_wrap_some_run(run.drop_first());
        assert(wrapped.drop_first() == run.drop_first().map_values(
            |step: Step<T>| step.wrap_some(),
        ));
    }
}

/// Driving the adapter made from `Some(x)` is driving `x`: over every run the
/// adapter is suspended exactly as often as `x` is, and it completes with
/// `Some(v)` exactly where `x` completes with `v`.
pub proof fn law_present_yields_some<D, T>(held: D, inner: Seq<(D, Step<T>)>)
    ensures
        suspensions(TransposedOption::<D>::reports(Some(held), inner)) == suspensions(
            steps(inner),
        ),
        outcome(TransposedOption::<D>::reports(Some(held), inner)) == match outcome(steps(inner)) {
            Some(value) => Some(Some(value)),
            None => None,
        },
{
    lemma_present_reports(held, inner);
    lemma_wrap_some_run(steps(inner));
    assert(steps(inner).map_values(|step: Step<T>| step.wrap_some()) == inner.map_values(
        |event: (D, Step<T>)| event.1.wrap_some(),
    ));
}

/// An adapter that holds nothing completes with `None` at every resumption,
/// however often it is resumed, and holds nothing afterwards.
pub proof fn law_absent_stays_none<D, T>(inner: Seq<(D, Step<T>)>)
    ensures
        forall|event: (D, Step<T>)| #[trigger]
            TransposedOption::<D>::turn(None, event) == (
                None::<D>,
                Step::<Option<T>>::Ready(None),
            ),
        TransposedOption::<D>::reports(None, inner).len() == inner.len(),
        forall|i: int|
            0 <= i < inner.len() ==> #[trigger] TransposedOption::<D>::reports(None, inner)[i]
                == Step::<Option<T>>::Ready(None),
    decreases inner.len(),
{
    if inner.len() != 0 {
        law_absent_stays_none(inner.drop_first());
    }
}

/// Driving the adapter made from `None` completes with `None` at the very
/// first resumption, without a suspension.
pub proof fn law_absent_completes_at_once<D, T>(inner: Seq<(D, Step<T>)>)
    requires
        inner.len() > 0,
    ensures
        suspensions(TransposedOption::<D>::reports(None, inner)) == 0,
        outcome(TransposedOption::<D>::reports(None, inner)) == Some(None::<T>),
{
    law_absent_stays_none(inner);
    assert(TransposedOption::<D>::reports(None, inner)[0] == Step::<Option<T>>::Ready(None));
}

/// An adapter that holds a computation reports, resumption by resumption,
/// what that computation reports, with a completion's value wrapped in `Ok`.
pub proof fn lemma_success_reports<D, E, T>(held: D, inner: Seq<(D, Step<T>)>)
    ensures
        TransposedResult::<D, E>::reports(Ok(held), inner) == inner.map_values(
            |event: (D, Step<T>)| event.1.wrap_ok::<E>(),
        ),
    decreases inner.len(),
{
    let wrapped = inner.map_values(|event: (D, Step<T>)| event.1.wrap_ok::<E>());
    if inner.len() != 0 {
        let rest = inner.drop_first();
        lemma_success_reports::<D, E, T>(inner[0].0, rest);
        assert(rest.map_values(|event: (D, Step<T>)| event.1.wrap_ok::<E>())
            == wrapped.drop_first());
        assert(wrapped == seq![wrapped[0]] + wrapped.drop_first());
    }
}

/// Wrapping every report of a run in `Ok` leaves the number of suspensions as
/// it is and wraps the outcome.
pub proof fn lemma_wrap_ok_run<T, E>(run: Seq<Step<T>>)
    ensures
        suspensions(run.map_values(|step: Step<T>| step.wrap_ok::<E>())) == suspensions(run),
        outcome(run.map_values(|step: Step<T>| step.wrap_ok::<E>())) == match outcome(run) {
            Some(value) => Some(Ok::<T, E>(value)),
            None => None,
        },
    decreases run.len(),
{
    let wrapped = run.map_values(|step: Step<T>| step.wrap_ok::<E>());
    if run.len() != 0 && run[0] is Pending {
        lemma_wrap_ok_run::<T, E>(run.drop_first());
        assert(wrapped.drop_first() == run.drop_first().map_values(
            |step: Step<T>| step.wrap_ok::<E>(),
        ));
    }
}

/// Driving the adapter made from `Ok(x)` is driving `x`: over every run the
/// adapter is suspended exactly as often as `x` is, and it completes with
/// `Ok(v)` exactly where `x` completes with `v`.
pub proof fn law_success_yields_ok<D, E, T>(held: D, inner: Seq<(D, Step<T>)>)
    ensures
        suspensions(
            TransposedResult::<D, E>::reports(TransposedResult::<D, E>::stored(Ok(held)), inner),
        ) == suspensions(steps(inner)),
        outcome(
            TransposedResult::<D, E>::reports(TransposedResult::<D, E>::stored(Ok(held)), inner),
        ) == match outcome(steps(inner)) {
            Some(value) => Some(Ok::<T, E>(value)),
            None => None,
        },
{
    lemma_success_reports::<D, E, T>(held, inner);
    lemma_wrap_ok_run::<T, E>(steps(inner));
    assert(steps(inner).map_values(|step: Step<T>| step.wrap_ok::<E>()) == inner.map_values(
        |event: (D, Step<T>)| event.1.wrap_ok::<E>(),
    ));
}

/// The adapter made from `Err(e)` completes with `Err(e)` at the very first
/// resumption, without a suspension. That resumption leaves it spent, so that
/// the run holds this one report and `e` is handed out once.
pub proof fn law_failure_surrendered_once<D, E, T>(error: E, inner: Seq<(D, Step<T>)>)
    requires
        inner.len() > 0,
    ensures
        TransposedResult::<D, E>::turn(TransposedResult::<D, E>::stored(Err(error)), inner[0]) == (
            Err::<D, Option<E>>(None),
            Step::<Result<T, E>>::Ready(Err(error)),
        ),
        TransposedResult::<D, E>::reports(TransposedResult::<D, E>::stored(Err(error)), inner)
            == seq![Step::<Result<T, E>>::Ready(Err(error))],
        suspensions(
            TransposedResult::<D, E>::reports(TransposedResult::<D, E>::stored(Err(error)), inner),
        ) == 0,
        outcome(
            TransposedResult::<D, E>::reports(TransposedResult::<D, E>::stored(Err(error)), inner),
        ) == Some(Err::<T, E>(error)),
{
    let first = TransposedResult::<D, E>::stored(Err(error));
    let rest = inner.drop_first();
    assert(TransposedResult::<D, E>::reports(Err(None), rest) == Seq::<
        Step<Result<T, E>>,
    >::empty());
    assert(TransposedResult::<D, E>::reports(first, inner) == seq![
        Step::<Result<T, E>>::Ready(Err(error)),
    ] + Seq::<Step<Result<T, E>>>::empty());
}

} // verus!
