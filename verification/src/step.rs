//! The report of a single resumption.
use vstd::prelude::*;

verus! {

/// What one resumption of a deferred computation reports.
#[derive(Debug, PartialEq, Eq)]
pub enum Step<T> {
    /// The computation is suspended and has to be resumed again.
    Pending,
    /// The computation has completed with this value.
    Ready(T),
}

impl<T> Step<T> {
    /// The same report, with a completion's value marked as present.
    pub open spec fn wrap_some(self) -> Step<Option<T>> {
        match self {
            Step::Pending => Step::Pending,
            Step::Ready(value) => Step::Ready(Some(value)),
        }
    }

    /// The same report, with a completion's value marked as a success.
    pub open spec fn wrap_ok<E>(self) -> Step<Result<T, E>> {
        match self {
            Step::Pending => Step::Pending,
            Step::Ready(value) => Step::Ready(Ok(value)),
        }
    }
}

} // verus!
