//! The registration of a file descriptor with an event queue over `kqueue`.
use vstd::prelude::*;

#[allow(unused_imports)]
use super::change::change_result;
use super::change::{change_answer, Receipt};
use super::filter::{Filter, FilterCollection};
use crate::error::Error;
use crate::queue::flag::FlagState;
#[allow(unused_imports)]
use crate::queue::flag::FlagOp;
#[allow(unused_imports)]
use crate::queue::flag_subscription::{flag_clear_outcome, flag_poll, flag_poll_outcome};
use crate::queue::flag_subscription::{
    clear_flag, confirm_flag, poll_flag, poll_flag_undivided, rearmed_flag, FlagClearStep, FlagSlot,
};
use crate::poll::Poll;
use crate::queue::state::RegistrationState;
#[allow(unused_imports)]
use crate::queue::state::{not_ready, StateOp};
use crate::queue::subscription::{
    clear_step, poll_confirm, poll_step, poll_undivided, rearmed_step, ClearStep, ConfirmStep, PollStep,
    Slot,
};
#[allow(unused_imports)]
use crate::queue::subscription::{
    already_subscribed, clear_outcome, poll_answer, poll_outcome, queue_dropped,
};

verus! {

/// The registration of a file descriptor: what one holder of it remembers.
///
/// A registration is for one task at a time in each event class. Where several tasks wait for the
/// same class each of them needs a holder of its own.
#[derive(Debug)]
pub struct Registration {
    pub fd: i32,
    pub wakers: FilterCollection<Slot>,
}

impl Registration {
    /// A holder that remembers no subscription.
    pub open spec fn fresh(fd: i32) -> Registration {
        Registration { fd, wakers: FilterCollection { read: None, write: None } }
    }

    /// A holder for a descriptor.
    pub fn new(fd: i32) -> (registration: Registration)
        ensures
            registration == Registration::fresh(fd),
    {
        Registration { fd, wakers: FilterCollection { read: None, write: None } }
    }

    /// Another holder of the same registration, which remembers no subscription.
    pub fn another(&self) -> (registration: Registration)
        ensures
            registration == Registration::fresh(self.fd),
    {
        Registration::new(self.fd)
    }

    /// The subscription that is remembered for a class.
    pub fn subscription(&self, filter: Filter) -> (slot: Slot)
        requires
            filter.valid(),
        ensures
            slot == self.wakers.at(filter),
    {
        *self.wakers.index(filter)
    }

    /// Whether the descriptor is ready for a class; where it is not, `waker` is subscribed unless one
    /// that wakes the same task (`same_task`) is remembered as being so. Nothing comes in between.
    pub fn poll_ready(
        &mut self,
        filter: Filter,
        state: &mut RegistrationState,
        waker: usize,
        same_task: bool,
    ) -> (result: Poll<Result<(), Error>>)
        requires
            filter.valid(),
        ensures
            result == (if old(state)@.ready() {
                Poll::Ready(Ok::<(), Error>(()))
            } else {
                Poll::Pending
            }),
            final(state)@ == (if old(state)@.ready() || already_subscribed(
                old(self).wakers.at(filter),
                old(state)@.sequence,
                same_task,
            ) {
                old(state)@
            } else {
                old(state)@.apply(StateOp::Subscribe(waker))
            }),
            final(self).fd == old(self).fd,
            final(self).wakers == old(self).wakers.with(
                filter,
                if old(state)@.ready() {
                    None
                } else if already_subscribed(
                    old(self).wakers.at(filter),
                    old(state)@.sequence,
                    same_task,
                ) {
                    old(self).wakers.at(filter)
                } else {
                    Some((old(state)@.sequence, waker))
                },
            ),
            result is Ready <==> poll_answer(
                old(self).wakers.at(filter),
                old(state)@.sequence,
                same_task,
            ) is Ready,
            (final(state)@, final(self).wakers.at(filter)) == poll_outcome(
                old(state)@,
                old(self).wakers.at(filter),
                waker,
                same_task,
            ),
    {
        poll_undivided(self.wakers.index_mut(filter), state, waker, same_task)
    }

    /// Begins a poll that other steps may divide, by the sequence number that the state holds.
    /// `same_task` says whether the remembered waker wakes the task that polls.
    pub fn begin_poll(&mut self, filter: Filter, sequence: usize, same_task: bool) -> (step:
        PollStep)
        requires
            filter.valid(),
        ensures
            step == (if sequence % 2 == 0 {
                PollStep::Ready
            } else if already_subscribed(old(self).wakers.at(filter), sequence, same_task) {
                PollStep::Pending
            } else {
                PollStep::Subscribe
            }),
            final(self).fd == old(self).fd,
            final(self).wakers == (if sequence % 2 == 0 {
                old(self).wakers.with(filter, None)
            } else {
                old(self).wakers
            }),
    {
        poll_step(self.wakers.index_mut(filter), sequence, same_task)
    }

    /// Ends such a poll that put `waker` into the queue of the state, by the sequence number that the
    /// state holds since: a number other than `sequence` starts the poll over.
    pub fn confirm_poll(
        &mut self,
        filter: Filter,
        sequence: usize,
        waker: usize,
        reloaded: usize,
    ) -> (step: ConfirmStep)
        requires
            filter.valid(),
        ensures
            step == (if reloaded == sequence {
                ConfirmStep::Pending
            } else {
                ConfirmStep::Retry(reloaded)
            }),
            final(self).fd == old(self).fd,
            final(self).wakers == (if reloaded == sequence {
                old(self).wakers.with(filter, Some((sequence, waker)))
            } else {
                old(self).wakers
            }),
    {
        poll_confirm(self.wakers.index_mut(filter), sequence, waker, reloaded)
    }

    /// Marks the descriptor as not ready for a class and subscribes `waker`. Where this is the first
    /// holder to do so, the event queue has to be asked for one event with
    /// [`fd_change`](super::change::fd_change), and its answer goes to [`Registration::rearmed`].
    pub fn clear_ready(
        &mut self,
        filter: Filter,
        state: &mut RegistrationState,
        waker: usize,
        queue_alive: bool,
    ) -> (step: Result<ClearStep, Error>)
        requires
            filter.valid(),
        ensures
            final(state)@ == old(state)@.apply(StateOp::Clear).apply(StateOp::Subscribe(waker)),
            step == (if !old(state)@.ready() {
                Ok(ClearStep::Subscribed)
            } else if queue_alive {
                Ok(ClearStep::Rearm(not_ready(old(state)@.sequence)))
            } else {
                Err(queue_dropped())
            }),
            final(self).fd == old(self).fd,
            final(self).wakers == (if old(state)@.ready() {
                old(self).wakers
            } else {
                old(self).wakers.with(filter, Some((not_ready(old(state)@.sequence), waker)))
            }),
            (final(state)@, final(self).wakers.at(filter), step) == clear_outcome(
                old(state)@,
                old(self).wakers.at(filter),
                waker,
                queue_alive,
            ),
    {
        clear_step(self.wakers.index_mut(filter), state, waker, queue_alive)
    }

    /// Takes in the answer of the event queue to the request for one event.
    pub fn rearmed(
        &mut self,
        filter: Filter,
        sequence: usize,
        waker: usize,
        count: i32,
        last_error: Error,
        receipts: &Vec<Receipt>,
    ) -> (result: Result<(), Error>)
        requires
            filter.valid(),
        ensures
            result == change_result(count, last_error, receipts@),
            final(self).fd == old(self).fd,
            final(self).wakers == (if result is Ok {
                old(self).wakers.with(filter, Some((sequence, waker)))
            } else {
                old(self).wakers
            }),
    {
        let answer: Result<(), Error> = change_answer(count, last_error, receipts);
        rearmed_step(self.wakers.index_mut(filter), sequence, waker, answer)
    }
}

/// The registration of a file descriptor whose readiness is told by flags: what one holder of it
/// remembers.
#[derive(Debug)]
pub struct FlagRegistration {
    pub fd: i32,
    pub wakers: FilterCollection<FlagSlot>,
}

impl FlagRegistration {
    /// A holder that remembers no subscription.
    pub open spec fn fresh(fd: i32) -> FlagRegistration {
        FlagRegistration { fd, wakers: FilterCollection { read: None, write: None } }
    }

    /// A holder for a descriptor.
    pub fn new(fd: i32) -> (registration: FlagRegistration)
        ensures
            registration == FlagRegistration::fresh(fd),
    {
        FlagRegistration { fd, wakers: FilterCollection { read: None, write: None } }
    }

    /// Whether the descriptor is ready for a class; where it is not, `waker` is subscribed unless one
    /// that wakes the same task (`same_task`) is remembered as being so. Nothing comes in between.
    pub fn poll_ready(
        &mut self,
        filter: Filter,
        state: &mut FlagState,
        waker: usize,
        same_task: bool,
    ) -> (result: Poll<Result<(), Error>>)
        requires
            filter.valid(),
        ensures
            result == (if old(state)@.ready {
                Poll::Ready(Ok::<(), Error>(()))
            } else {
                Poll::Pending
            }),
            final(state)@ == (if flag_poll(
                old(self).wakers.at(filter),
                old(state)@.ready,
                same_task,
            ) is Subscribe {
                old(state)@.apply(FlagOp::Subscribe(waker))
            } else {
                old(state)@
            }),
            final(self).fd == old(self).fd,
            final(self).wakers == old(self).wakers.with(
                filter,
                match flag_poll(old(self).wakers.at(filter), old(state)@.ready, same_task) {
                    PollStep::Ready => None,
                    PollStep::Pending => old(self).wakers.at(filter),
                    PollStep::Subscribe => Some(waker),
                },
            ),
            (final(state)@, final(self).wakers.at(filter)) == flag_poll_outcome(
                old(state)@,
                old(self).wakers.at(filter),
                waker,
                same_task,
            ),
    {
        poll_flag_undivided(self.wakers.index_mut(filter), state, waker, same_task)
    }

    /// Begins a poll that other steps may divide, by the flag of the state. `same_task` says whether
    /// the remembered waker wakes the task that polls.
    pub fn begin_poll(&mut self, filter: Filter, ready: bool, same_task: bool) -> (step: PollStep)
        requires
            filter.valid(),
        ensures
            step == flag_poll(old(self).wakers.at(filter), ready, same_task),
            final(self).fd == old(self).fd,
            final(self).wakers == (if ready {
                old(self).wakers.with(filter, None)
            } else {
                old(self).wakers
            }),
    {
        poll_flag(self.wakers.index_mut(filter), ready, same_task)
    }

    /// Ends such a poll that left `waker` in the queue, by what the flag says since.
    pub fn confirm_poll(&mut self, filter: Filter, now_ready: bool, waker: usize) -> (ready: bool)
        requires
            filter.valid(),
        ensures
            ready == now_ready,
            final(self).fd == old(self).fd,
            final(self).wakers == old(self).wakers.with(
                filter,
                if now_ready {
                    None
                } else {
                    Some(waker)
                },
            ),
    {
        confirm_flag(self.wakers.index_mut(filter), now_ready, waker)
    }

    /// Marks the descriptor as not ready for a class and subscribes `waker`.
    pub fn clear_ready(
        &mut self,
        filter: Filter,
        state: &mut FlagState,
        waker: usize,
        queue_alive: bool,
    ) -> (step: Result<FlagClearStep, Error>)
        requires
            filter.valid(),
        ensures
            final(state)@ == old(state)@.apply(FlagOp::Clear).apply(FlagOp::Subscribe(waker)),
            step == (if !old(state)@.ready {
                Ok(FlagClearStep::Subscribed)
            } else if queue_alive {
                Ok(FlagClearStep::Rearm)
            } else {
                Err(queue_dropped())
            }),
            final(self).fd == old(self).fd,
            final(self).wakers == (if old(state)@.ready {
                old(self).wakers
            } else {
                old(self).wakers.with(filter, Some(waker))
            }),
            (final(state)@, final(self).wakers.at(filter), step) == flag_clear_outcome(
                old(state)@,
                old(self).wakers.at(filter),
                waker,
                queue_alive,
            ),
    {
        clear_flag(self.wakers.index_mut(filter), state, waker, queue_alive)
    }

    /// Takes in the answer of the event queue to the request for one event.
    pub fn rearmed(
        &mut self,
        filter: Filter,
        waker: usize,
        count: i32,
        last_error: Error,
        receipts: &Vec<Receipt>,
    ) -> (result: Result<(), Error>)
        requires
            filter.valid(),
        ensures
            result == change_result(count, last_error, receipts@),
            final(self).fd == old(self).fd,
            final(self).wakers == (if result is Ok {
                old(self).wakers.with(filter, Some(waker))
            } else {
                old(self).wakers
            }),
    {
        let answer: Result<(), Error> = change_answer(count, last_error, receipts);
        rearmed_flag(self.wakers.index_mut(filter), waker, answer)
    }
}

/// A holder for a descriptor is for that descriptor and remembers nothing.
pub proof fn law_new_holder_remembers_nothing(fd: i32)
    ensures
        Registration::fresh(fd).fd == fd,
        Registration::fresh(fd).wakers.read is None,
        Registration::fresh(fd).wakers.write is None,
        FlagRegistration::fresh(fd).fd == fd,
        FlagRegistration::fresh(fd).wakers.read is None,
        FlagRegistration::fresh(fd).wakers.write is None,
{
}

} // verus!
