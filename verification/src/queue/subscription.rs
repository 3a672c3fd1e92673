//! What one holder of a registration remembers of its subscription, so that polling again does not
//! fill the queue of wakers.
use vstd::prelude::*;

use super::state::RegistrationState;
#[allow(unused_imports)]
use super::state::{not_ready, StateModel, StateOp};
use crate::error::{Error, ErrorKind};
use crate::poll::Poll;

verus! {

/// The sequence number under which a holder subscribed, and the waker that it left.
pub type Slot = Option<(usize, usize)>;

/// What a poll comes to once the sequence number has been read.
#[derive(Clone, Copy, PartialEq, Eq, Debug, Structural)]
pub enum PollStep {
    /// The object is ready.
    Ready,
    /// The waker of the task is in the queue already.
    Pending,
    /// The waker has to go into the queue, and the sequence number has to be read once more.
    Subscribe,
}

/// What a poll comes to once the waker is in the queue and the sequence number has been read again.
#[derive(Clone, Copy, PartialEq, Eq, Debug, Structural)]
pub enum ConfirmStep {
    /// Nothing happened meanwhile: the task waits.
    Pending,
    /// The number moved on: the poll starts over with the number that was read.
    Retry(usize),
}

/// What is left to do once an object has been marked as not ready.
#[derive(Clone, Copy, PartialEq, Eq, Debug, Structural)]
pub enum ClearStep {
    /// The operating system has to be asked for the next event, and the subscription is to be
    /// remembered under this sequence number if it agrees.
    Rearm(usize),
    /// Another holder asked already; the subscription is remembered.
    Subscribed,
}

/// The text of the error for a request that comes after the event queue is gone.
pub const QUEUE_DROPPED: &'static str = "a request was made to register a file descriptor to receive events on an EventQueue, but that EventQueue has been dropped";

/// The error for a request that comes after the event queue is gone.
pub open spec fn queue_dropped() -> Error {
    Error::Custom { kind: ErrorKind::BrokenPipe, message: QUEUE_DROPPED }
}

/// Whether a poll finds its waker in the queue already: the slot holds the number that was just
/// read, and a waker that wakes the same task.
pub open spec fn already_subscribed(slot: Slot, sequence: usize, same_task: bool) -> bool {
    match slot {
        Some((subscribed, waker)) => subscribed == sequence && same_task,
        None => false,
    }
}

/// What a poll comes to by the sequence number that was read.
pub open spec fn poll_answer(slot: Slot, sequence: usize, same_task: bool) -> PollStep {
    if sequence % 2 == 0 {
        PollStep::Ready
    } else if already_subscribed(slot, sequence, same_task) {
        PollStep::Pending
    } else {
        PollStep::Subscribe
    }
}

/// The state and the slot after a poll that nothing divides.
pub open spec fn poll_outcome(state: StateModel, slot: Slot, waker: usize, same_task: bool) -> (
    StateModel,
    Slot,
) {
    match poll_answer(slot, state.sequence, same_task) {
        PollStep::Ready => (state, None),
        PollStep::Pending => (state, slot),
        PollStep::Subscribe => (
            state.apply(StateOp::Subscribe(waker)),
            Some((state.sequence, waker)),
        ),
    }
}

/// The state and the slot after an object was marked as not ready, and what is left to do.
pub open spec fn clear_outcome(state: StateModel, slot: Slot, waker: usize, queue_alive: bool) -> (
    StateModel,
    Slot,
    Result<ClearStep, Error>,
) {
    let cleared = state.apply(StateOp::Clear).apply(StateOp::Subscribe(waker));
    if !state.ready() {
        (cleared, Some((cleared.sequence, waker)), Ok(ClearStep::Subscribed))
    } else if queue_alive {
        (cleared, slot, Ok(ClearStep::Rearm(cleared.sequence)))
    } else {
        (cleared, slot, Err(queue_dropped()))
    }
}

/// Decides a poll by the sequence number `sequence` that was read. `same_task` says whether the
/// waker in the slot wakes the task that polls.
pub fn poll_step(slot: &mut Slot, sequence: usize, same_task: bool) -> (step: PollStep)
    ensures
        step == (if sequence % 2 == 0 {
            PollStep::Ready
        } else if already_subscribed(*old(slot), sequence, same_task) {
            PollStep::Pending
        } else {
            PollStep::Subscribe
        }),
        *final(slot) == (if sequence % 2 == 0 {
            None
        } else {
            *old(slot)
        }),
        step == poll_answer(*old(slot), sequence, same_task),
{
    if sequence % 2 == 0 {
        *slot = None;
        return PollStep::Ready;
    }
    if let Some((subscribed, _waker)) = *slot {
        if subscribed == sequence && same_task {
            return PollStep::Pending;
        }
    }
    PollStep::Subscribe
}

/// Decides a poll that put `waker` into the queue after it read `sequence`, by the number that was
/// read since.
pub fn poll_confirm(slot: &mut Slot, sequence: usize, waker: usize, reloaded: usize) -> (step:
    ConfirmStep)
    ensures
        step == (if reloaded == sequence {
            ConfirmStep::Pending
        } else {
            ConfirmStep::Retry(reloaded)
        }),
        *final(slot) == (if reloaded == sequence {
            Some((sequence, waker))
        } else {
            *old(slot)
        }),
{
    if reloaded == sequence {
        *slot = Some((sequence, waker));
        ConfirmStep::Pending
    } else {
        ConfirmStep::Retry(reloaded)
    }
}

/// Whether the object is ready; where it is not, `waker` is left in the queue unless the slot says
/// that one that wakes the same task (`same_task`) is there already. Nothing comes in between.
pub fn poll_undivided(
    slot: &mut Slot,
    state: &mut RegistrationState,
    waker: usize,
    same_task: bool,
) -> (result: Poll<Result<(), Error>>)
    ensures
        result == (if old(state)@.ready() {
            Poll::Ready(Ok::<(), Error>(()))
        } else {
            Poll::Pending
        }),
        final(state)@ == (if old(state)@.ready() || already_subscribed(
            *old(slot),
            old(state)@.sequence,
            same_task,
        ) {
            old(state)@
        } else {
            old(state)@.apply(StateOp::Subscribe(waker))
        }),
        *final(slot) == (if old(state)@.ready() {
            None
        } else if already_subscribed(*old(slot), old(state)@.sequence, same_task) {
            *old(slot)
        } else {
            Some((old(state)@.sequence, waker))
        }),
        (final(state)@, *final(slot)) == poll_outcome(old(state)@, *old(slot), waker, same_task),
{
    let mut sequence: usize = state.sequence();
    loop
        invariant
            sequence == state@.sequence,
            state@ == old(state)@,
            *slot == *old(slot),
        decreases 0nat,
    {
        match poll_step(slot, sequence, same_task) {
            PollStep::Ready => {
                return Poll::Ready(Ok(()));
            },
            PollStep::Pending => {
                return Poll::Pending;
            },
            PollStep::Subscribe => {
                state.subscribe(waker);
                match poll_confirm(slot, sequence, waker, state.sequence()) {
                    ConfirmStep::Pending => {
                        return Poll::Pending;
                    },
                    ConfirmStep::Retry(reloaded) => {
                        sequence = reloaded;
                    },
                }
            },
        }
    }
}

/// Marks the object as not ready and puts `waker` into its queue. Whoever is first to do so has to
/// ask the operating system for the next event, which fails where the event queue is gone.
pub fn clear_step(
    slot: &mut Slot,
    state: &mut RegistrationState,
    waker: usize,
    queue_alive: bool,
) -> (step: Result<ClearStep, Error>)
    ensures
        final(state)@ == old(state)@.apply(StateOp::Clear).apply(StateOp::Subscribe(waker)),
        step == (if !old(state)@.ready() {
            Ok(ClearStep::Subscribed)
        } else if queue_alive {
            Ok(ClearStep::Rearm(not_ready(old(state)@.sequence)))
        } else {
            Err(queue_dropped())
        }),
        *final(slot) == (if old(state)@.ready() {
            *old(slot)
        } else {
            Some((not_ready(old(state)@.sequence), waker))
        }),
        (final(state)@, *final(slot), step) == clear_outcome(
            old(state)@,
            *old(slot),
            waker,
            queue_alive,
        ),
{
    let old_sequence: usize = state.clear();
    // The waker goes in only after it is sure that this is the edge from not listening to listening.
    state.subscribe(waker);
    let sequence: usize = state.sequence();
    if old_sequence % 2 == 0 {
        if !queue_alive {
            return Err(Error::Custom { kind: ErrorKind::BrokenPipe, message: QUEUE_DROPPED });
        }
        Ok(ClearStep::Rearm(sequence))
    } else {
        *slot = Some((sequence, waker));
        Ok(ClearStep::Subscribed)
    }
}

/// Takes in what the operating system answered to the request for the next event.
pub fn rearmed_step(slot: &mut Slot, sequence: usize, waker: usize, answer: Result<(), Error>) -> (
result: Result<(), Error>)
    ensures
        result == answer,
        *final(slot) == (if answer is Ok {
            Some((sequence, waker))
        } else {
            *old(slot)
        }),
{
    if answer.is_ok() {
        *slot = Some((sequence, waker));
    }
    answer
}

/// A poll counts on an earlier subscription only where it was made under the number that was read
/// and for the same task.
pub proof fn law_earlier_subscription_is_trusted_only_if_current(
    slot: Slot,
    sequence: usize,
    same_task: bool,
)
    ensures
        already_subscribed(slot, sequence, same_task) ==> same_task && slot is Some,
        match slot {
            Some((number, waker)) => already_subscribed(slot, number, true) && (number != sequence
                ==> !already_subscribed(slot, sequence, same_task)),
            None => true,
        },
{
}

/// A request after the event queue is gone is answered as a broken pipe.
pub proof fn law_gone_queue_is_a_broken_pipe()
    ensures
        queue_dropped() is Custom,
        queue_dropped()->Custom_kind == ErrorKind::BrokenPipe,
        queue_dropped()->message == QUEUE_DROPPED,
{
}

/// A poll that nothing divides finds the object ready where its number is even; otherwise it leaves
/// the task with a waker in the queue: the one of this poll, or the one that an earlier poll of the
/// same task left under the same number. It never changes the number, and never takes a waker away.
pub proof fn law_poll_leaves_the_task_subscribed(
    state: StateModel,
    slot: Slot,
    waker: usize,
    same_task: bool,
    at: int,
)
    ensures
        ({
            let after = poll_outcome(state, slot, waker, same_task);
            let step = poll_answer(slot, state.sequence, same_task);
            &&& step == PollStep::Ready <==> state.sequence % 2 == 0
            &&& after.0.sequence == state.sequence
            &&& state.sequence % 2 == 0 ==> after.0 == state && after.1 is None
            &&& 0 <= at < state.listeners.len() ==> after.0.listeners[at] == state.listeners[at]
            &&& state.sequence % 2 == 1 && after.0 != state ==> after.0.listeners.len()
                == state.listeners.len() + 1 && after.0.listeners.last() == waker && after.1 == Some(
                (state.sequence, waker),
            )
            &&& state.sequence % 2 == 1 && after.0 == state ==> same_task && after.1 == slot
                && slot is Some
            &&& state.sequence % 2 == 1 && (!same_task || slot is None) ==> after.0.listeners.len()
                == state.listeners.len() + 1
        }),
{
    let after = poll_outcome(state, slot, waker, same_task);
    if after.0 == state && state.sequence % 2 == 1 && !already_subscribed(
        slot,
        state.sequence,
        same_task,
    ) {
        assert(after.0.listeners.len() == state.listeners.len() + 1);
    }
}

/// Polling again adds nothing to the queue: where the same task polls and no event has come since,
/// the second poll leaves the state and the slot as they are.
pub proof fn law_polling_again_adds_nothing(
    state: StateModel,
    slot: Slot,
    waker: usize,
    same_task: bool,
    again: usize,
)
    ensures
        ({
            let first = poll_outcome(state, slot, waker, same_task);
            poll_outcome(first.0, first.1, again, true) == first
        }),
{
}

/// Marking an object as not ready leaves it so, with the task behind those that wait already. Whoever
/// finds it ready, and nobody else, has to ask the operating system for the next event, under the
/// number that the object has since, and fails where the event queue is gone.
pub proof fn law_first_mark_asks_for_the_event(
    state: StateModel,
    slot: Slot,
    waker: usize,
    queue_alive: bool,
    at: int,
)
    ensures
        ({
            let after = clear_outcome(state, slot, waker, queue_alive);
            &&& after.0.sequence % 2 == 1
            &&& after.0.listeners.len() == state.listeners.len() + 1
            &&& after.0.listeners.last() == waker
            &&& 0 <= at < state.listeners.len() ==> after.0.listeners[at] == state.listeners[at]
            &&& after.2 == Ok::<ClearStep, Error>(ClearStep::Rearm(after.0.sequence)) <==> queue_alive
                && state.sequence % 2 == 0
            &&& after.2 == Ok::<ClearStep, Error>(ClearStep::Subscribed) <==> state.sequence % 2 == 1
            &&& after.2 is Err <==> !queue_alive && state.sequence % 2 == 0
            &&& after.2 is Err ==> after.2->Err_0 is Custom && after.2->Err_0->Custom_kind
                == ErrorKind::BrokenPipe
            &&& state.sequence % 2 == 1 ==> after.0.sequence == state.sequence && after.1 == Some(
                (after.0.sequence, waker),
            )
            &&& state.sequence % 2 == 0 ==> after.1 == slot
        }),
{
}

} // verus!
