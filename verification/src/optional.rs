//! The adapter over an optional deferred computation.
use vstd::prelude::*;
use crate::step::Step;
use crate::transpose::TransposeFuture;

verus! {

/// A deferred computation made from an `Option` that may hold one. Its
/// eventual output is what the held computation yields, marked as present, or
/// `None` at once where nothing is held.
pub struct TransposedOption<D>(Option<D>);

impl<D> TransposedOption<D> {
    /// The computation that the adapter holds, if any.
    pub closed spec fn view(&self) -> Option<D> {
        self.0
    }

    /// One resumption, as a function of the state before it: the state after it
    /// and its report. `inner` is the held computation after its own
    /// resumption, with what that reported; it is read only where a
    /// computation is held.
    pub open spec fn turn<T>(state: Option<D>, inner: (D, Step<T>)) -> (
        Option<D>,
        Step<Option<T>>,
    ) {
        match state {
            None => (None, Step::Ready(None)),
            Some(_) => (Some(inner.0), inner.1.wrap_some()),
        }
    }

    /// The reports of the successive resumptions of an adapter in `state`,
    /// where `inner[i]` is what the held computation does when it is resumed
    /// for the `i`-th time.
    pub open spec fn reports<T>(state: Option<D>, inner: Seq<(D, Step<T>)>) -> Seq<
        Step<Option<T>>,
    >
        decreases inner.len(),
    {
        if inner.len() == 0 {
            Seq::empty()
        } else {
            let (next, report) = Self::turn(state, inner[0]);
            seq![report] + Self::reports(next, inner.drop_first())
        }
    }

    /// Makes the adapter for `value`, whose computation `convert` first brings
    /// into the form in which it will be resumed. Where `value` is `None`,
    /// `convert` is not applied.
    pub fn converting<X, C>(value: Option<X>, convert: C) -> (adapter: Self) where
        C: FnOnce(X) -> D,

        requires
            value matches Some(source) ==> convert.requires((source,)),
        ensures
            value matches Some(source) ==> adapter@ matches Some(held) && convert.ensures(
                (source,),
                held,
            ),
            value is None ==> adapter@ is None,
    {
        match value {
            Some(source) => TransposedOption(Some(convert(source))),
            None => TransposedOption(None),
        }
    }

    /// Resumes the adapter once. Where a computation is held, `resume` is
    /// applied to it, and its report is passed on with a completion's value
    /// wrapped in `Some`. Where none is held, the adapter completes at once
    /// with `None` and stays as it is.
    pub fn poll<T, R>(&mut self, resume: R) -> (report: Step<Option<T>>) where
        R: FnOnce(&mut D) -> Step<T>,

        requires
            old(self)@ matches Some(held) ==> forall|inner: &mut D|
                *inner == held ==> resume.requires((inner,)),
        ensures
            old(self)@ is None ==> final(self)@ is None && report == Step::<Option<T>>::Ready(
                None,
            ),
            old(self)@ matches Some(held) ==> exists|inner: &mut D, step: Step<T>|
                {
                    &&& *inner == held
                    &&& #[trigger] resume.ensures((inner,), step)
                    &&& (final(self)@, report) == Self::turn(old(self)@, (*final(inner), step))
                },
    {
        match &mut self.0 {
            Some(inner) => match resume(inner) {
                Step::Ready(value) => Step::Ready(Some(value)),
                Step::Pending => Step::Pending,
            },
            None => Step::Ready(None),
        }
    }
}

impl<D> TransposeFuture for Option<D> {
    type Output = TransposedOption<D>;

    /// The adapter holds exactly what the `Option` held.
    fn transpose(self) -> (adapter: TransposedOption<D>)
        ensures
            adapter@ == self,
    {
        TransposedOption(self)
    }
}

} // verus!
