//! Structured parallel execution for async Rust.
//!
//! > Concurrency is a system-structuring mechanism, parallelism is a resource.
//!
//! Rather than one family of APIs for concurrency and another for parallelism,
//! this library has one type, [`ParallelFuture`]. Calling `par` on a future
//! hands it to the executor at once and gives back a `ParallelFuture`, which is
//! itself a future: awaited alone it yields the output, and scheduled
//! concurrently with others it runs in parallel with them. Dropping it before
//! the output came abandons the computation: the executor is asked to cancel
//! it.
//!
//! Rust has no async destructors, so nobody waits on that request: the
//! destructor hands it to the executor and returns.
//!
//! The modules:
//!
//! - [`lifecycle`]: the slot of a parallel future as a state machine, with the
//!   laws that hold of every sequence of polls and abandonments;
//! - [`native`]: the executor's types and calls, which are trusted;
//! - [`parallel`]: `ParallelFuture` itself;
//! - [`ext`]: the `par` method.

pub mod ext;
pub mod lifecycle;
pub mod native;
pub mod parallel;
pub mod prelude;

pub use ext::IntoFutureExt;
pub use parallel::ParallelFuture;
