//! What one holder of a registration remembers of its subscription, where readiness is a flag.
use vstd::prelude::*;

use super::flag::FlagState;
#[allow(unused_imports)]
use super::flag::{FlagModel, FlagOp};
#[allow(unused_imports)]
use super::subscription::queue_dropped;
use super::subscription::{PollStep, QUEUE_DROPPED};
use crate::error::{Error, ErrorKind};
use crate::poll::Poll;

verus! {

/// The waker that a holder left in the queue.
pub type FlagSlot = Option<usize>;

/// What is left to do once an object has been marked as not ready.
#[derive(Clone, Copy, PartialEq, Eq, Debug, Structural)]
pub enum FlagClearStep {
    /// The operating system has to be asked for the next event.
    Rearm,
    /// Another holder asked already; the subscription is remembered.
    Subscribed,
}

/// Decides a poll by the flag that was read. `same_task` says whether the waker in the slot wakes the
/// task that polls.
pub fn poll_flag(slot: &mut FlagSlot, ready: bool, same_task: bool) -> (step: PollStep)
    ensures
        step == flag_poll(*old(slot), ready, same_task),
        *final(slot) == (if ready {
            None
        } else {
            *old(slot)
        }),
{
    if ready {
        *slot = None;
        return PollStep::Ready;
    }
    if slot.is_some() && same_task {
        return PollStep::Pending;
    }
    PollStep::Subscribe
}

/// What a poll comes to: where the object is not ready, a waker of the same task that was left in
/// the queue before is enough.
pub open spec fn flag_poll(slot: FlagSlot, ready: bool, same_task: bool) -> PollStep {
    if ready {
        PollStep::Ready
    } else if slot is Some && same_task {
        PollStep::Pending
    } else {
        PollStep::Subscribe
    }
}

/// The state and the slot after a poll that nothing divides.
pub open spec fn flag_poll_outcome(
    state: FlagModel,
    slot: FlagSlot,
    waker: usize,
    same_task: bool,
) -> (FlagModel, FlagSlot) {
    match flag_poll(slot, state.ready, same_task) {
        PollStep::Ready => (state, None),
        PollStep::Pending => (state, slot),
        PollStep::Subscribe => (state.apply(FlagOp::Subscribe(waker)), Some(waker)),
    }
}

/// The state and the slot after an object was marked as not ready, and what is left to do.
pub open spec fn flag_clear_outcome(
    state: FlagModel,
    slot: FlagSlot,
    waker: usize,
    queue_alive: bool,
) -> (FlagModel, FlagSlot, Result<FlagClearStep, Error>) {
    let cleared = state.apply(FlagOp::Clear).apply(FlagOp::Subscribe(waker));
    if !state.ready {
        (cleared, Some(waker), Ok(FlagClearStep::Subscribed))
    } else if queue_alive {
        (cleared, slot, Ok(FlagClearStep::Rearm))
    } else {
        (cleared, slot, Err(queue_dropped()))
    }
}

/// Ends a poll that left `waker` in the queue, by what the flag says since.
pub fn confirm_flag(slot: &mut FlagSlot, now_ready: bool, waker: usize) -> (ready: bool)
    ensures
        ready == now_ready,
        *final(slot) == (if now_ready {
            None
        } else {
            Some(waker)
        }),
{
    if now_ready {
        *slot = None;
    } else {
        *slot = Some(waker);
    }
    now_ready
}

/// Whether the object is ready; where it is not, `waker` is left in the queue unless the slot says
/// that one that wakes the same task (`same_task`) is there already. Nothing comes in between.
pub fn poll_flag_undivided(
    slot: &mut FlagSlot,
    state: &mut FlagState,
    waker: usize,
    same_task: bool,
) -> (result: Poll<Result<(), Error>>)
    ensures
        result == (if old(state)@.ready {
            Poll::Ready(Ok::<(), Error>(()))
        } else {
            Poll::Pending
        }),
        final(state)@ == (if flag_poll(*old(slot), old(state)@.ready, same_task) is Subscribe {
            old(state)@.apply(FlagOp::Subscribe(waker))
        } else {
            old(state)@
        }),
        *final(slot) == (match flag_poll(*old(slot), old(state)@.ready, same_task) {
            PollStep::Ready => None,
            PollStep::Pending => *old(slot),
            PollStep::Subscribe => Some(waker),
        }),
        (final(state)@, *final(slot)) == flag_poll_outcome(
            old(state)@,
            *old(slot),
            waker,
            same_task,
        ),
{
    match poll_flag(slot, state.is_ready(), same_task) {
        PollStep::Ready => Poll::Ready(Ok(())),
        PollStep::Pending => Poll::Pending,
        PollStep::Subscribe => {
            state.subscribe(waker);
            if confirm_flag(slot, state.is_ready(), waker) {
                Poll::Ready(Ok(()))
            } else {
                Poll::Pending
            }
        },
    }
}

/// Marks the object as not ready and puts `waker` into its queue. Whoever is first to do so has to
/// ask the operating system for the next event, which fails where the event queue is gone.
pub fn clear_flag(
    slot: &mut FlagSlot,
    state: &mut FlagState,
    waker: usize,
    queue_alive: bool,
) -> (step: Result<FlagClearStep, Error>)
    ensures
        final(state)@ == old(state)@.apply(FlagOp::Clear).apply(FlagOp::Subscribe(waker)),
        step == (if !old(state)@.ready {
            Ok(FlagClearStep::Subscribed)
        } else if queue_alive {
            Ok(FlagClearStep::Rearm)
        } else {
            Err(queue_dropped())
        }),
        *final(slot) == (if old(state)@.ready {
            *old(slot)
        } else {
            Some(waker)
        }),
        (final(state)@, *final(slot), step) == flag_clear_outcome(
            old(state)@,
            *old(slot),
            waker,
            queue_alive,
        ),
{
    let was_ready: bool = state.clear();
    // The waker goes in only after it is sure that this is the edge from not listening to listening.
    state.subscribe(waker);
    if was_ready {
        if !queue_alive {
            return Err(Error::Custom { kind: ErrorKind::BrokenPipe, message: QUEUE_DROPPED });
        }
        Ok(FlagClearStep::Rearm)
    } else {
        *slot = Some(waker);
        Ok(FlagClearStep::Subscribed)
    }
}

/// Takes in what the operating system answered to the request for the next event.
pub fn rearmed_flag(slot: &mut FlagSlot, waker: usize, answer: Result<(), Error>) -> (result: Result<
    (),
    Error,
>)
    ensures
        result == answer,
        *final(slot) == (if answer is Ok {
            Some(waker)
        } else {
            *old(slot)
        }),
{
    if answer.is_ok() {
        *slot = Some(waker);
    }
    answer
}

/// A poll finds the object ready where the flag says so, and only there; otherwise the waker goes
/// into the queue, unless one of the same task was left there.
pub proof fn law_flag_poll_is_subscribed_or_ready(slot: FlagSlot, ready: bool, same_task: bool)
    ensures
        flag_poll(slot, ready, same_task) == PollStep::Ready <==> ready,
        flag_poll(slot, ready, same_task) == PollStep::Pending <==> !ready && slot is Some
            && same_task,
        flag_poll(slot, ready, same_task) == PollStep::Subscribe <==> !ready && (slot is None
            || !same_task),
{
}

/// A poll that nothing divides leaves the task with a waker in the queue where the object is not
/// ready: the one of this poll, or the one that an earlier poll of the same task left. It never
/// changes the flag, and never takes a waker away.
pub proof fn law_flag_poll_leaves_the_task_subscribed(
    state: FlagModel,
    slot: FlagSlot,
    waker: usize,
    same_task: bool,
    at: int,
)
    ensures
        ({
            let after = flag_poll_outcome(state, slot, waker, same_task);
            &&& after.0.ready == state.ready
            &&& state.ready ==> after.0 == state && after.1 is None
            &&& 0 <= at < state.listeners.len() ==> after.0.listeners[at] == state.listeners[at]
            &&& !state.ready && same_task && slot is Some ==> after.0 == state && after.1 == slot
            &&& !state.ready && (!same_task || slot is None) ==> after.0.listeners.len()
                == state.listeners.len() + 1 && after.0.listeners.last() == waker && after.1 == Some(
                waker,
            )
        }),
{
}

/// Polling again adds nothing to the queue: where the same task polls and no event has come since,
/// the second poll leaves the state and the slot as they are.
pub proof fn law_polling_a_flag_again_adds_nothing(
    state: FlagModel,
    slot: FlagSlot,
    waker: usize,
    same_task: bool,
    again: usize,
)
    ensures
        ({
            let first = flag_poll_outcome(state, slot, waker, same_task);
            flag_poll_outcome(first.0, first.1, again, true) == first
        }),
{
}

/// Marking an object as not ready leaves it so, with the task behind those that wait already. Whoever
/// finds it ready, and nobody else, has to ask the operating system for the next event, and fails
/// where the event queue is gone.
pub proof fn law_first_flag_mark_asks_for_the_event(
    state: FlagModel,
    slot: FlagSlot,
    waker: usize,
    queue_alive: bool,
    at: int,
)
    ensures
        ({
            let after = flag_clear_outcome(state, slot, waker, queue_alive);
            &&& !after.0.ready
            &&& after.0.listeners.len() == state.listeners.len() + 1
            &&& after.0.listeners.last() == waker
            &&& 0 <= at < state.listeners.len() ==> after.0.listeners[at] == state.listeners[at]
            &&& after.2 == Ok::<FlagClearStep, Error>(FlagClearStep::Rearm) <==> queue_alive
                && state.ready
            &&& after.2 == Ok::<FlagClearStep, Error>(FlagClearStep::Subscribed) <==> !state.ready
            &&& after.2 is Err <==> !queue_alive && state.ready
            &&& after.2 is Err ==> after.2->Err_0 is Custom && after.2->Err_0->Custom_kind
                == ErrorKind::BrokenPipe
            &&& !state.ready ==> after.1 == Some(waker)
            &&& state.ready ==> after.1 == slot
        }),
{
}

} // verus!
