//! The adapter over a fallible deferred computation.
use vstd::prelude::*;
use crate::step::Step;
use crate::transpose::TransposeFuture;

verus! {

/// A deferred computation made from a `Result` that holds either a computation
/// or an error. Its eventual output is what the held computation yields, marked
/// as a success, or the error at once where there is no computation.
///
/// The error is handed out by the one resumption that completes with it. After
/// that the adapter is spent and must not be resumed again.
pub struct TransposedResult<D, E>(Result<D, Option<E>>);

impl<D, E> TransposedResult<D, E> {
    /// The computation that the adapter holds, or else the error that it has
    /// still to hand out, if it has not done so yet.
    pub closed spec fn view(&self) -> Result<D, Option<E>> {
        self.0
    }

    /// What an adapter made from `value` holds.
    pub open spec fn stored(value: Result<D, E>) -> Result<D, Option<E>> {
        match value {
            Ok(held) => Ok(held),
            Err(error) => Err(Some(error)),
        }
    }

    /// Whether the adapter has completed with its error, so that no further
    /// resumption is allowed.
    pub open spec fn spent(&self) -> bool {
        self@ == Err::<D, Option<E>>(None)
    }

    /// One resumption, as a function of the state before it: the state after it
    /// and its report. `inner` is the held computation after its own
    /// resumption, with what that reported; it is read only where a
    /// computation is held.
    pub open spec fn turn<T>(state: Result<D, Option<E>>, inner: (D, Step<T>)) -> (
        Result<D, Option<E>>,
        Step<Result<T, E>>,
    )
        recommends
            state != Err::<D, Option<E>>(None),
    {
        match state {
            Ok(_) => (Ok(inner.0), inner.1.wrap_ok()),
            Err(slot) => (Err(None), Step::Ready(Err(slot->Some_0))),
        }
    }

    /// The reports of the successive resumptions of an adapter in `state`,
    /// where `inner[i]` is what the held computation does when it is resumed
    /// for the `i`-th time. The run ends where the adapter is spent.
    pub open spec fn reports<T>(state: Result<D, Option<E>>, inner: Seq<(D, Step<T>)>) -> Seq<
        Step<Result<T, E>>,
    >
        decreases inner.len(),
    {
        if inner.len() == 0 || state == Err::<D, Option<E>>(None) {
            Seq::empty()
        } else {
            let (next, report) = Self::turn(state, inner[0]);
            seq![report] + Self::reports(next, inner.drop_first())
        }
    }

    /// Makes the adapter for `value`, whose computation `convert` first brings
    /// into the form in which it will be resumed. An error is stored as it is,
    /// and `convert` is not applied.
    pub fn converting<X, C>(value: Result<X, E>, convert: C) -> (adapter: Self) where
        C: FnOnce(X) -> D,

        requires
            value matches Ok(source) ==> convert.requires((source,)),
        ensures
            value matches Ok(source) ==> adapter@ matches Ok(held) && convert.ensures(
                (source,),
                held,
            ),
            value matches Err(error) ==> adapter@ == Err::<D, Option<E>>(Some(error)),
    {
        match value {
            Ok(source) => TransposedResult(Ok(convert(source))),
            Err(error) => TransposedResult(Err(Some(error))),
        }
    }

    /// Tells whether the adapter has already completed with its error.
    pub fn is_spent(&self) -> (spent: bool)
        ensures
            spent == self.spent(),
    {
        match &self.0 {
            Ok(_) => false,
            Err(slot) => slot.is_none(),
        }
    }

    /// Resumes the adapter once. Where a computation is held, `resume` is
    /// applied to it, and its report is passed on with a completion's value
    /// wrapped in `Ok`. Where an error is held, the adapter completes at once
    /// with that error and is spent from then on: `resume` is not applied.
    ///
    /// A spent adapter must not be resumed; `is_spent` tells whether it is.
    pub fn poll<T, R>(&mut self, resume: R) -> (report: Step<Result<T, E>>) where
        R: FnOnce(&mut D) -> Step<T>,

        requires
            !old(self).spent(),
            old(self)@ matches Ok(held) ==> forall|inner: &mut D|
                *inner == held ==> resume.requires((inner,)),
        ensures
            old(self)@ matches Err(Some(error)) ==> final(self).spent() && report == Step::<
                Result<T, E>,
            >::Ready(Err(error)),
            old(self)@ matches Ok(held) ==> exists|inner: &mut D, step: Step<T>|
                {
                    &&& *inner == held
                    &&& #[trigger] resume.ensures((inner,), step)
                    &&& (final(self)@, report) == Self::turn(old(self)@, (*final(inner), step))
                },
    {
        match &mut self.0 {
            Ok(inner) => match resume(inner) {
                Step::Ready(value) => Step::Ready(Ok(value)),
                Step::Pending => Step::Pending,
            },
            Err(slot) => Step::Ready(Err(slot.take().unwrap())),
        }
    }
}

impl<D, E> TransposeFuture for Result<D, E> {
    type Output = TransposedResult<D, E>;

    /// The adapter holds the computation of an `Ok`, or the error of an `Err`,
    /// ready to be handed out once.
    fn transpose(self) -> (adapter: TransposedResult<D, E>)
        ensures
            adapter@ == TransposedResult::<D, E>::stored(self),
    {
        match self {
            Ok(held) => TransposedResult(Ok(held)),
            Err(error) => TransposedResult(Err(Some(error))),
        }
    }
}

} // verus!
