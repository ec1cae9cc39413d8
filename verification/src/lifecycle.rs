//! The life of a parallel handle, as a state machine.
//!
//! A parallel handle owns one slot. The slot holds the executor's handle of the
//! spawned computation until that handle leaves it, which happens on one of two
//! paths: the computation is polled to completion, or the parallel handle is
//! abandoned. This module says what each event does to the slot and proves what
//! holds of every sequence of events.

use vstd::prelude::*;

verus! {

/// What the slot of a parallel handle holds.
#[derive(Clone, Copy, Debug, PartialEq, Eq, Structural)]
pub enum Slot {
    /// The executor's handle of a computation that has not been seen to finish.
    Live,
    /// Nothing: the handle has left the slot.
    Drained,
}

/// What can happen to a parallel handle.
#[derive(Clone, Copy, Debug, PartialEq, Eq, Structural)]
pub enum Event {
    /// It was polled and the computation had not finished.
    Pending,
    /// It was polled and the computation had finished.
    Ready,
    /// It was abandoned: dropped, or given up by hand.
    Abandoned,
}

impl Slot {
    /// The slot after `event`. Only a poll that finds the computation unfinished
    /// leaves a live slot live, and nothing fills a drained slot again.
    pub open spec fn after(self, event: Event) -> Slot {
        if self is Live && event is Pending {
            Slot::Live
        } else {
            Slot::Drained
        }
    }

    /// Whether `event` takes the handle out of the slot.
    pub open spec fn gives_up_handle(self, event: Event) -> bool {
        self is Live && self.after(event) is Drained
    }

    /// Whether `event` hands the computation's output to the caller.
    pub open spec fn yields_output(self, event: Event) -> bool {
        self is Live && event is Ready
    }

    /// Whether `event` asks the executor to cancel the computation.
    pub open spec fn requests_cancel(self, event: Event) -> bool {
        self is Live && event is Abandoned
    }
}

/// The slot of a parallel handle that was made live and then went through `trace`.
pub open spec fn slot_after(trace: Seq<Event>) -> Slot
    decreases trace.len(),
{
    if trace.len() == 0 {
        Slot::Live
    } else {
        slot_after(trace.drop_last()).after(trace.last())
    }
}

/// How many times the handle was taken out of the slot during `trace`.
pub open spec fn handles_taken(trace: Seq<Event>) -> nat
    decreases trace.len(),
{
    if trace.len() == 0 {
        0
    } else {
        let before = trace.drop_last();
        let here: nat = if slot_after(before).gives_up_handle(trace.last()) { 1 } else { 0 };
        handles_taken(before) + here
    }
}

/// How many outputs the caller was handed during `trace`.
pub open spec fn outputs_yielded(trace: Seq<Event>) -> nat
    decreases trace.len(),
{
    if trace.len() == 0 {
        0
    } else {
        let before = trace.drop_last();
        let here: nat = if slot_after(before).yields_output(trace.last()) { 1 } else { 0 };
        outputs_yielded(before) + here
    }
}

/// How many times the executor was asked to cancel during `trace`.
pub open spec fn cancels_requested(trace: Seq<Event>) -> nat
    decreases trace.len(),
{
    if trace.len() == 0 {
        0
    } else {
        let before = trace.drop_last();
        let here: nat = if slot_after(before).requests_cancel(trace.last()) { 1 } else { 0 };
        cancels_requested(before) + here
    }
}

/// The handle leaves the slot at most once, and the slot is drained exactly when
/// it has left: a slot is never found empty before its first and only taking,
/// and a handle is never taken twice.
pub proof fn lemma_handle_taken_at_most_once(trace: Seq<Event>)
    ensures
        handles_taken(trace) <= 1,
        handles_taken(trace) == 1 <==> slot_after(trace) is Drained,
        handles_taken(trace) == 0 <==> slot_after(trace) is Live,
    decreases trace.len(),
{
    if trace.len() > 0 {
        lemma_handle_taken_at_most_once(trace.drop_last());
    }
}

/// Every taking is either a completion or a cancellation, never both: the
/// outputs handed over and the cancellations requested add up to the takings,
/// so there is at most one of either and never one of each.
pub proof fn lemma_taken_by_one_path(trace: Seq<Event>)
    ensures
        outputs_yielded(trace) + cancels_requested(trace) == handles_taken(trace),
        outputs_yielded(trace) <= 1,
        cancels_requested(trace) <= 1,
        !(outputs_yielded(trace) == 1 && cancels_requested(trace) == 1),
    decreases trace.len(),
{
    lemma_handle_taken_at_most_once(trace);
    if trace.len() > 0 {
        lemma_taken_by_one_path(trace.drop_last());
    }
}

/// Whatever is appended to a trace, a drained slot stays drained and none of the
/// three counts goes down.
pub proof fn lemma_trace_extends(trace: Seq<Event>, more: Seq<Event>)
    ensures
        slot_after(trace) is Drained ==> slot_after(trace + more) is Drained,
        handles_taken(trace) <= handles_taken(trace + more),
        outputs_yielded(trace) <= outputs_yielded(trace + more),
        cancels_requested(trace) <= cancels_requested(trace + more),
    decreases more.len(),
{
    if more.len() == 0 {
        assert(trace + more =~= trace);
    } else {
        lemma_trace_extends(trace, more.drop_last());
        assert((trace + more).drop_last() =~= trace + more.drop_last());
        assert((trace + more).last() == more.last());
    }
}

/// A parallel handle that is ever abandoned does not leak its handle: the
/// handle has left the slot exactly once, by completion before the abandonment
/// or by the abandonment itself.
pub proof fn lemma_abandoned_handle_is_taken(trace: Seq<Event>, at: int)
    requires
        0 <= at < trace.len(),
        trace[at] is Abandoned,
    ensures
        handles_taken(trace) == 1,
        slot_after(trace) is Drained,
{
    let upto = trace.take(at + 1);
    let rest = trace.skip(at + 1);
    assert(upto.last() == trace[at]);
    assert(slot_after(upto) is Drained);
    lemma_trace_extends(upto, rest);
    assert(upto + rest =~= trace);
    lemma_handle_taken_at_most_once(trace);
}

/// Without a poll that finds the computation finished, no output is handed
/// over: spawning alone shows the caller nothing.
pub proof fn lemma_no_output_without_ready(trace: Seq<Event>)
    requires
        forall|i: int| 0 <= i < trace.len() ==> !(trace[i] is Ready),
    ensures
        outputs_yielded(trace) == 0,
    decreases trace.len(),
{
    if trace.len() > 0 {
        lemma_no_output_without_ready(trace.drop_last());
    }
}

/// While every event is a poll that finds the computation unfinished, the slot
/// stays live and nothing is taken, handed over or cancelled.
pub proof fn lemma_pending_keeps_live(trace: Seq<Event>)
    requires
        forall|i: int| 0 <= i < trace.len() ==> trace[i] is Pending,
    ensures
        slot_after(trace) is Live,
        handles_taken(trace) == 0,
        outputs_yielded(trace) == 0,
        cancels_requested(trace) == 0,
    decreases trace.len(),
{
    if trace.len() > 0 {
        lemma_pending_keeps_live(trace.drop_last());
    }
}

/// A parallel handle that is abandoned before it was polled to completion asks
/// the executor to cancel exactly once and hands over no output, neither before
/// the abandonment nor at any later event.
pub proof fn lemma_early_abandon_cancels_once(trace: Seq<Event>, at: int)
    requires
        0 <= at < trace.len(),
        trace[at] is Abandoned,
        forall|i: int| 0 <= i < at ==> !(trace[i] is Ready),
    ensures
        cancels_requested(trace) == 1,
        outputs_yielded(trace) == 0,
{
    let upto = trace.take(at + 1);
    let rest = trace.skip(at + 1);
    assert(upto + rest =~= trace);
    lemma_no_output_without_ready(upto);
    lemma_abandoned_handle_is_taken(upto, at);
    lemma_taken_by_one_path(upto);
    lemma_trace_extends(upto, rest);
    lemma_abandoned_handle_is_taken(trace, at);
    lemma_taken_by_one_path(trace);
}

} // verus!
