//! The conversion that the adapters are made by.
use vstd::prelude::*;

verus! {

/// A container of a deferred computation that can be turned into one deferred
/// computation of the container's shape.
pub trait TransposeFuture: Sized {
    /// The adapter that takes the container's place.
    type Output;

    /// Moves the container's content into its adapter. This neither resumes
    /// anything nor fails.
    fn transpose(self) -> Self::Output;
}

} // verus!
