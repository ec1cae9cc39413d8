//! The parallel handle: a future that runs on the executor and has its
//! computation cancelled when it is abandoned.

use crate::lifecycle::Event;
use crate::lifecycle::Slot;
use crate::native::cancel_handle;
use crate::native::poll_handle;
use async_std::task::JoinHandle;
use std::future::Future;
use std::pin::Pin;
use std::task::Context;
use std::task::Poll;
use vstd::prelude::*;

verus! {

/// The event that a poll with this outcome is.
pub open spec fn signal<T>(outcome: Poll<T>) -> Event {
    if outcome is Ready {
        Event::Ready
    } else {
        Event::Pending
    }
}

/// A parallelizable future.
///
/// This type is constructed by the `par` method on `IntoFutureExt`. The
/// computation it stands for has been handed to the executor, whose handle of
/// it sits in the one slot of this type. Polling the parallel future polls that
/// handle, which leaves the slot when it reports the output. Abandoning the
/// parallel future before that takes the handle out and asks the executor to
/// cancel the computation.
///
/// The output goes to a worker of the executor and comes back, or goes back to
/// the executor with the request to cancel, so it has to be `Send + 'static`.
#[derive(Debug)]
#[must_use]
pub struct ParallelFuture<Fut: Future>
where
    Fut::Output: Send + 'static,
{
    handle: Option<JoinHandle<Fut::Output>>,
}

impl<Fut: Future> View for ParallelFuture<Fut>
where
    Fut::Output: Send + 'static,
{
    type V = Slot;

    closed spec fn view(&self) -> Slot {
        if self.handle is Some {
            Slot::Live
        } else {
            Slot::Drained
        }
    }
}

/// Turns a pinned parallel future into a plain mutable reference with
/// `Pin::get_mut`, which `std` allows because the type holds nothing that is
/// pinned. Nothing is claimed of the reference.
#[verifier::external_body]
fn unpinned<'a, Fut: Future>(pinned: Pin<&'a mut ParallelFuture<Fut>>) -> (inner: &'a mut ParallelFuture<Fut>)
    where
        Fut::Output: Send + 'static,
{
    pinned.get_mut()
}

impl<Fut: Future> ParallelFuture<Fut>
where
    Fut::Output: Send + 'static,
{
    /// Wraps the executor's handle of a computation that has just been spawned.
    pub(crate) fn new(handle: JoinHandle<Fut::Output>) -> (this: Self)
        ensures
            this@ is Live,
    {
        ParallelFuture { handle: Some(handle) }
    }

    /// What the slot holds.
    pub fn slot(&self) -> (slot: Slot)
        ensures
            slot == self@,
    {
        if self.handle.is_some() {
            Slot::Live
        } else {
            Slot::Drained
        }
    }

    /// Takes whatever the slot holds out of it. Both the completion and the
    /// abandonment go through here.
    fn take(&mut self) -> (taken: Option<JoinHandle<Fut::Output>>)
        ensures
            taken == old(self).handle,
            final(self).handle is None,
        opens_invariants none
        no_unwind
    {
        let mut taken: Option<JoinHandle<Fut::Output>> = None;
        std::mem::swap(&mut self.handle, &mut taken);
        taken
    }

    /// Takes in what the executor's handle reported at a poll. The outcome goes
    /// to the caller as it is; if it is `Ready`, the handle has done its work and
    /// leaves the slot.
    pub fn settle(&mut self, outcome: Poll<Fut::Output>) -> (out: Poll<Fut::Output>)
        ensures
            out == outcome,
            final(self)@ == old(self)@.after(signal(outcome)),
            outcome is Pending ==> *final(self) == *old(self),
    {
        match outcome {
            Poll::Ready(output) => {
                let _ = self.take();
                Poll::Ready(output)
            },
            Poll::Pending => Poll::Pending,
        }
    }

    /// Polls a live parallel future: forwards the poll to the executor's handle
    /// and settles what it reports.
    pub fn poll_live(&mut self, cx: &mut Context<'_>) -> (out: Poll<Fut::Output>)
        requires
            old(self)@ is Live,
        ensures
            final(self)@ == old(self)@.after(signal(out)),
    {
        let handle = self.handle.as_mut().unwrap();
        let outcome = poll_handle(handle, cx);
        self.settle(outcome)
    }

    /// Polls the parallel future if its slot is live, and says `None` without
    /// touching anything if it is drained.
    pub fn try_poll(&mut self, cx: &mut Context<'_>) -> (polled: Option<Poll<Fut::Output>>)
        ensures
            polled is None <==> old(self)@ is Drained,
            polled is None ==> *final(self) == *old(self),
            polled matches Some(out) ==> final(self)@ == old(self)@.after(signal(out)),
    {
        if self.handle.is_some() {
            Some(self.poll_live(cx))
        } else {
            None
        }
    }

    /// Abandons the computation: takes the handle out of the slot and asks the
    /// executor to cancel it, without waiting for an answer. Says whether there
    /// was a handle to cancel; on a drained slot this does nothing.
    pub fn abandon(&mut self) -> (cancelled: bool)
        ensures
            final(self)@ == old(self)@.after(Event::Abandoned),
            cancelled == old(self)@.requests_cancel(Event::Abandoned),
        opens_invariants none
        no_unwind
    {
        match self.take() {
            Some(handle) => {
                cancel_handle(handle);
                true
            },
            None => false,
        }
    }
}

impl<Fut> Future for ParallelFuture<Fut>
where
    Fut: Future + Send + 'static,
    Fut::Output: Send + 'static,
{
    type Output = <Fut as Future>::Output;

    /// Polls the computation. A parallel future that has handed over its output,
    /// or was abandoned by hand, has nothing left to poll and stays pending.
    fn poll(self: Pin<&mut Self>, cx: &mut Context<'_>) -> (out: Poll<Self::Output>)
    {
        let this = unpinned(self);
        match this.try_poll(cx) {
            Some(out) => out,
            None => Poll::Pending,
        }
    }
}

/// Cancel the `ParallelFuture` when dropped.
impl<Fut: Future> Drop for ParallelFuture<Fut>
where
    Fut::Output: Send + 'static,
{
    fn drop(&mut self)
        ensures
            final(self)@ == old(self)@.after(Event::Abandoned),
        opens_invariants none
        no_unwind
    {
        let _ = self.abandon();
    }
}

} // verus!
