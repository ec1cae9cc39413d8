//! The `par` method on futures.

use crate::parallel::ParallelFuture;
use std::future::Future;
use vstd::prelude::*;

verus! {

/// Extend the `Future` trait.
pub trait IntoFutureExt: Future + Sized
where
    Self: Send + 'static,
    <Self as Future>::Output: Send + 'static,
{
    /// Convert this future into a parallelizable future.
    ///
    /// The future is handed to the executor at once, not at the first poll; what
    /// comes back holds the executor's handle of it in a live slot.
    fn par(self) -> (handle: ParallelFuture<Self>)
        ensures
            handle@ is Live,
    {
        ParallelFuture::new(async_std::task::spawn(self))
    }
}

impl<Fut> IntoFutureExt for Fut
where
    Fut: Future + Send + 'static,
    <Fut as Future>::Output: Send + 'static,
{
}

} // verus!
