//! The registration of a mach port with an event queue over `kqueue`.
use vstd::prelude::*;

#[allow(unused_imports)]
use super::change::change_result;
use super::change::{change_answer, Receipt};
use crate::error::Error;
use crate::poll::Poll;
use crate::queue::flag::FlagState;
#[allow(unused_imports)]
use crate::queue::flag::FlagOp;
#[allow(unused_imports)]
use crate::queue::flag_subscription::{flag_clear_outcome, flag_poll, flag_poll_outcome};
use crate::queue::flag_subscription::{
    clear_flag, confirm_flag, poll_flag, poll_flag_undivided, rearmed_flag, FlagClearStep, FlagSlot,
};
#[allow(unused_imports)]
use crate::queue::subscription::queue_dropped;
use crate::queue::subscription::PollStep;

verus! {

/// The registration of a mach port: what one holder of it remembers.
#[derive(Debug)]
pub struct PortRegistration {
    pub port: u32,
    pub waker: FlagSlot,
}

impl PortRegistration {
    /// A holder for a port, which remembers no subscription.
    pub fn new(port: u32) -> (registration: PortRegistration)
        ensures
            registration == (PortRegistration { port, waker: None }),
    {
        PortRegistration { port, waker: None }
    }

    /// Another holder of the same registration, which remembers no subscription.
    pub fn another(&self) -> (registration: PortRegistration)
        ensures
            registration == (PortRegistration { port: self.port, waker: None }),
    {
        PortRegistration::new(self.port)
    }

    /// Whether a message can be received; where it cannot, `waker` is subscribed unless one that wakes
    /// the same task (`same_task`) is remembered as being so. Nothing comes in between.
    pub fn poll_recv_ready(&mut self, state: &mut FlagState, waker: usize, same_task: bool) -> (
    result: Poll<Result<(), Error>>)
        ensures
            result == (if old(state)@.ready {
                Poll::Ready(Ok::<(), Error>(()))
            } else {
                Poll::Pending
            }),
            final(state)@ == (if flag_poll(
                old(self).waker,
                old(state)@.ready,
                same_task,
            ) is Subscribe {
                old(state)@.apply(FlagOp::Subscribe(waker))
            } else {
                old(state)@
            }),
            final(self).port == old(self).port,
            final(self).waker == (match flag_poll(old(self).waker, old(state)@.ready, same_task) {
                PollStep::Ready => None,
                PollStep::Pending => old(self).waker,
                PollStep::Subscribe => Some(waker),
            }),
            (final(state)@, final(self).waker) == flag_poll_outcome(
                old(state)@,
                old(self).waker,
                waker,
                same_task,
            ),
    {
        poll_flag_undivided(&mut self.waker, state, waker, same_task)
    }

    /// Begins a poll that other steps may divide, by the flag of the state. `same_task` says whether
    /// the remembered waker wakes the task that polls.
    pub fn begin_poll(&mut self, ready: bool, same_task: bool) -> (step: PollStep)
        ensures
            step == flag_poll(old(self).waker, ready, same_task),
            final(self).port == old(self).port,
            final(self).waker == (if ready {
                None
            } else {
                old(self).waker
            }),
    {
        poll_flag(&mut self.waker, ready, same_task)
    }

    /// Ends such a poll that left `waker` in the queue, by what the flag says since.
    pub fn confirm_poll(&mut self, now_ready: bool, waker: usize) -> (ready: bool)
        ensures
            ready == now_ready,
            final(self).port == old(self).port,
            final(self).waker == (if now_ready {
                None
            } else {
                Some(waker)
            }),
    {
        confirm_flag(&mut self.waker, now_ready, waker)
    }

    /// Marks the port as having no message and subscribes `waker`. Where this is the first holder to
    /// do so, the event queue has to be asked for one event with
    /// [`port_change`](super::change::port_change), and its answer goes to
    /// [`PortRegistration::rearmed`].
    pub fn clear_recv_ready(&mut self, state: &mut FlagState, waker: usize, queue_alive: bool) -> (
    step: Result<FlagClearStep, Error>)
        ensures
            final(state)@ == old(state)@.apply(FlagOp::Clear).apply(FlagOp::Subscribe(waker)),
            step == (if !old(state)@.ready {
                Ok(FlagClearStep::Subscribed)
            } else if queue_alive {
                Ok(FlagClearStep::Rearm)
            } else {
                Err(queue_dropped())
            }),
            final(self).port == old(self).port,
            final(self).waker == (if old(state)@.ready {
                old(self).waker
            } else {
                Some(waker)
            }),
            (final(state)@, final(self).waker, step) == flag_clear_outcome(
                old(state)@,
                old(self).waker,
                waker,
                queue_alive,
            ),
    {
        clear_flag(&mut self.waker, state, waker, queue_alive)
    }

    /// Takes in the answer of the event queue to the request for one event.
    pub fn rearmed(
        &mut self,
        waker: usize,
        count: i32,
        last_error: Error,
        receipts: &Vec<Receipt>,
    ) -> (result: Result<(), Error>)
        ensures
            result == change_result(count, last_error, receipts@),
            final(self).port == old(self).port,
            final(self).waker == (if result is Ok {
                Some(waker)
            } else {
                old(self).waker
            }),
    {
        let answer: Result<(), Error> = change_answer(count, last_error, receipts);
        rearmed_flag(&mut self.waker, waker, answer)
    }
}

} // verus!
