//! The executor, as far as a parallel handle needs it.
//!
//! Everything here is trusted: these are the types and calls of async-std and of
//! `std` that the library relies on, with what it takes them to promise. None of
//! it is proved.

use async_std::task::JoinHandle;
use std::future::Future;
use std::pin::Pin;
use std::task::Context;
use std::task::Poll;
use vstd::prelude::*;

verus! {

/// `async_std::task::JoinHandle`, the executor's handle of a spawned task. The
/// library carries it around and never looks inside.
#[verifier::external_type_specification]
#[verifier::external_body]
#[verifier::reject_recursive_types(T)]
pub struct ExJoinHandle<T>(JoinHandle<T>);

/// `std::task::Context`, which carries the waker of whoever polls.
#[verifier::external_type_specification]
#[verifier::external_body]
pub struct ExContext<'a>(Context<'a>);

/// `std::task::Poll`. Its two variants, `Ready` and `Pending`, are public, and
/// the library matches on them.
#[verifier::external_type_specification]
#[verifier::reject_recursive_types(T)]
pub struct ExPoll<T>(Poll<T>);

/// `std::pin::Pin`.
#[verifier::external_type_specification]
#[verifier::external_body]
#[verifier::reject_recursive_types(Ptr)]
pub struct ExPin<Ptr>(Pin<Ptr>);

/// `async_std::task::spawn` hands `future` to the executor and returns the
/// handle of the new task. Nothing is claimed of the handle. async-std starts
/// its runtime at the first spawn and panics if the system gives it no thread.
pub assume_specification<F, T>[ async_std::task::spawn::<F, T> ](future: F) -> (handle: JoinHandle<T>)
    where
        F: Future<Output = T> + Send + 'static,
        T: Send + 'static,
;

/// Polls `handle` once, through the `Future` impl of
/// `async_std::task::JoinHandle`. Nothing is claimed of the outcome: it depends
/// on how far the executor has come. The call unwinds with the task's own panic
/// if the task panicked, and async-std panics if a handle is polled again after
/// it has reported `Ready`: the library drains the slot at that report, so that
/// no such handle is left to poll.
#[verifier::external_body]
pub(crate) fn poll_handle<T>(handle: &mut JoinHandle<T>, cx: &mut Context<'_>) -> (outcome: Poll<T>)
{
    Pin::new(handle).poll(cx)
}

/// Sends the executor the request to cancel the task of `handle`:
/// `async_std::task::JoinHandle::cancel` makes the request out of the handle,
/// and `async_std::task::spawn` hands it to the executor as a task of its own,
/// which nobody waits on. The caller hears nothing of how the request fared,
/// not even the panic of a task that had failed unseen: that ends with the
/// request. The handle is gone afterwards. The call does not unwind: the
/// runtime is up, since `handle` came out of it.
#[verifier::external_body]
pub(crate) fn cancel_handle<T: Send + 'static>(handle: JoinHandle<T>)
    opens_invariants none
    no_unwind
{
    let _ = async_std::task::spawn(handle.cancel());
}

} // verus!
