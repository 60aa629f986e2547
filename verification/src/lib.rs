//! Transposition of an optional or fallible deferred computation: an
//! `Option` or `Result` that holds a computation becomes one computation
//! whose eventual output is the `Option` or `Result` of the held one's output.
//!
//! The adapters decide; the caller resumes. Each `poll` is handed the means to
//! resume the held computation once and reports what the adapter's own
//! resumption comes to.
pub mod driving;
pub mod fallible;
pub mod laws;
pub mod optional;
pub mod step;
pub mod transpose;

pub use fallible::TransposedResult;
pub use optional::TransposedOption;
pub use step::Step;
pub use transpose::TransposeFuture;
