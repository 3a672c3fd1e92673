//! The registration of a file descriptor with an event queue over `epoll`.
use vstd::prelude::*;

use super::filter::{Filter, FilterCollection, FilterCollectionIter, EPOLLIN, EPOLLOUT};
use crate::error::{check_descriptor, check_status, Error};
use crate::poll::Poll;
use crate::queue::state::RegistrationState;
#[allow(unused_imports)]
use crate::queue::state::{not_ready, StateOp};
use crate::queue::subscription::{
    clear_step, poll_confirm, poll_step, poll_undivided, rearmed_step, ClearStep, ConfirmStep, PollStep,
    Slot,
};
#[allow(unused_imports)]
use crate::queue::subscription::{
    already_subscribed, clear_outcome, poll_answer, poll_outcome, queue_dropped,
};

verus! {

/// The bit that asks for edges.
pub const EPOLLET: u32 = 0x8000_0000;

/// The bit that asks for a single event.
pub const EPOLLONESHOT: u32 = 0x4000_0000;

/// The mask that asks for one event of a class.
pub open spec fn single_event(filter: Filter) -> u32 {
    filter.0 | EPOLLET | EPOLLONESHOT
}

/// The mask that asks for one event of a class.
pub fn rearm_mask(filter: Filter) -> (mask: u32)
    ensures
        mask == single_event(filter),
{
    filter.0 | EPOLLET | EPOLLONESHOT
}

/// The registration of a file descriptor: what one holder of it remembers.
///
/// A registration is for one task at a time in each event class. Where several tasks wait for the
/// same class each of them needs a holder of its own.
#[derive(Debug)]
pub struct Registration {
    pub fd: i32,
    pub wakers: FilterCollection<Slot>,
}

impl Registration {
    /// A holder that remembers no subscription.
    pub open spec fn fresh(fd: i32) -> Registration {
        Registration { fd, wakers: FilterCollection { read: None, write: None } }
    }

    /// A holder for a descriptor.
    pub fn new(fd: i32) -> (registration: Registration)
        ensures
            registration == Registration::fresh(fd),
    {
        Registration { fd, wakers: FilterCollection { read: None, write: None } }
    }

    /// Another holder of the same registration, which remembers no subscription.
    pub fn another(&self) -> (registration: Registration)
        ensures
            registration == Registration::fresh(self.fd),
    {
        Registration::new(self.fd)
    }

    /// The subscription that is remembered for a class.
    pub fn subscription(&self, filter: Filter) -> (slot: Slot)
        requires
            filter.valid(),
        ensures
            slot == self.wakers.at(filter),
    {
        *self.wakers.index(filter)
    }

    /// Whether the descriptor is ready for a class; where it is not, `waker` is subscribed unless one
    /// that wakes the same task (`same_task`) is remembered as being so. Nothing comes in between.
    pub fn poll_ready(
        &mut self,
        filter: Filter,
        state: &mut RegistrationState,
        waker: usize,
        same_task: bool,
    ) -> (result: Poll<Result<(), Error>>)
        requires
            filter.valid(),
        ensures
            result == (if old(state)@.ready() {
                Poll::Ready(Ok::<(), Error>(()))
            } else {
                Poll::Pending
            }),
            final(state)@ == (if old(state)@.ready() || already_subscribed(
                old(self).wakers.at(filter),
                old(state)@.sequence,
                same_task,
            ) {
                old(state)@
            } else {
                old(state)@.apply(StateOp::Subscribe(waker))
            }),
            final(self).fd == old(self).fd,
            final(self).wakers == old(self).wakers.with(
                filter,
                if old(state)@.ready() {
                    None
                } else if already_subscribed(
                    old(self).wakers.at(filter),
                    old(state)@.sequence,
                    same_task,
                ) {
                    old(self).wakers.at(filter)
                } else {
                    Some((old(state)@.sequence, waker))
                },
            ),
            result is Ready <==> poll_answer(
                old(self).wakers.at(filter),
                old(state)@.sequence,
                same_task,
            ) is Ready,
            (final(state)@, final(self).wakers.at(filter)) == poll_outcome(
                old(state)@,
                old(self).wakers.at(filter),
                waker,
                same_task,
            ),
    {
        poll_undivided(self.wakers.index_mut(filter), state, waker, same_task)
    }

    /// Begins a poll that other steps may divide, by the sequence number that the state holds.
    /// `same_task` says whether the remembered waker wakes the task that polls.
    pub fn begin_poll(&mut self, filter: Filter, sequence: usize, same_task: bool) -> (step:
        PollStep)
        requires
            filter.valid(),
        ensures
            step == (if sequence % 2 == 0 {
                PollStep::Ready
            } else if already_subscribed(old(self).wakers.at(filter), sequence, same_task) {
                PollStep::Pending
            } else {
                PollStep::Subscribe
            }),
            final(self).fd == old(self).fd,
            final(self).wakers == (if sequence % 2 == 0 {
                old(self).wakers.with(filter, None)
            } else {
                old(self).wakers
            }),
    {
        poll_step(self.wakers.index_mut(filter), sequence, same_task)
    }

    /// Ends such a poll that put `waker` into the queue of the state, by the sequence number that the
    /// state holds since: a number other than `sequence` starts the poll over.
    pub fn confirm_poll(
        &mut self,
        filter: Filter,
        sequence: usize,
        waker: usize,
        reloaded: usize,
    ) -> (step: ConfirmStep)
        requires
            filter.valid(),
        ensures
            step == (if reloaded == sequence {
                ConfirmStep::Pending
            } else {
                ConfirmStep::Retry(reloaded)
            }),
            final(self).fd == old(self).fd,
            final(self).wakers == (if reloaded == sequence {
                old(self).wakers.with(filter, Some((sequence, waker)))
            } else {
                old(self).wakers
            }),
    {
        poll_confirm(self.wakers.index_mut(filter), sequence, waker, reloaded)
    }

    /// Marks the descriptor as not ready for a class and subscribes `waker`. Where this is the first
    /// holder to do so, the event queue has to be asked for one event with [`rearm_mask`], and its
    /// answer goes to [`Registration::rearmed`].
    pub fn clear_ready(
        &mut self,
        filter: Filter,
        state: &mut RegistrationState,
        waker: usize,
        queue_alive: bool,
    ) -> (step: Result<ClearStep, Error>)
        requires
            filter.valid(),
        ensures
            final(state)@ == old(state)@.apply(StateOp::Clear).apply(StateOp::Subscribe(waker)),
            step == (if !old(state)@.ready() {
                Ok(ClearStep::Subscribed)
            } else if queue_alive {
                Ok(ClearStep::Rearm(not_ready(old(state)@.sequence)))
            } else {
                Err(queue_dropped())
            }),
            final(self).fd == old(self).fd,
            final(self).wakers == (if old(state)@.ready() {
                old(self).wakers
            } else {
                old(self).wakers.with(filter, Some((not_ready(old(state)@.sequence), waker)))
            }),
            (final(state)@, final(self).wakers.at(filter), step) == clear_outcome(
                old(state)@,
                old(self).wakers.at(filter),
                waker,
                queue_alive,
            ),
    {
        clear_step(self.wakers.index_mut(filter), state, waker, queue_alive)
    }

    /// Takes in the answer of the event queue to the request for one event.
    pub fn rearmed(
        &mut self,
        filter: Filter,
        sequence: usize,
        waker: usize,
        returned: i32,
        last_error: Error,
    ) -> (result: Result<(), Error>)
        requires
            filter.valid(),
        ensures
            result == (if returned == 0 {
                Ok(())
            } else {
                Err(last_error)
            }),
            final(self).fd == old(self).fd,
            final(self).wakers == (if returned == 0 {
                old(self).wakers.with(filter, Some((sequence, waker)))
            } else {
                old(self).wakers
            }),
    {
        rearmed_step(
            self.wakers.index_mut(filter),
            sequence,
            waker,
            check_status(returned, last_error),
        )
    }
}

/// A step of registering a descriptor.
#[derive(Clone, Copy, PartialEq, Eq, Debug, Structural)]
pub enum RegisterStep {
    /// Duplicate the descriptor, so that this class can be asked for on its own.
    Duplicate { fd: i32, filter: Filter },
    /// Add a duplicate to the event queue, for no event yet.
    Add { fd: i32, filter: Filter },
}

/// Registers a descriptor with an event queue.
#[derive(Debug)]
pub struct RegisterFd {
    pub source: i32,
    /// The duplicates that were made so far, for reading and then for writing.
    pub duplicates: Vec<i32>,
    /// How many of the duplicates have been added.
    pub added: usize,
}

impl RegisterFd {
    /// Whether every duplicate was made before the first was added.
    pub open spec fn wf(self) -> bool {
        &&& self.duplicates@.len() <= 2
        &&& self.added <= 2
        &&& self.added > 0 ==> self.duplicates@.len() == 2
    }

    /// The class that stands at a place.
    pub open spec fn class(place: int) -> Filter {
        if place == 0 {
            Filter(EPOLLIN)
        } else {
            Filter(EPOLLOUT)
        }
    }

    /// What is to be done next; nothing once both duplicates have been added.
    pub open spec fn spec_step(self) -> Option<RegisterStep> {
        if self.duplicates@.len() < 2 {
            Some(
                RegisterStep::Duplicate {
                    fd: self.source,
                    filter: RegisterFd::class(self.duplicates@.len() as int),
                },
            )
        } else if self.added < 2 {
            Some(
                RegisterStep::Add {
                    fd: self.duplicates@[self.added as int],
                    filter: RegisterFd::class(self.added as int),
                },
            )
        } else {
            None
        }
    }

    /// Begins to register a descriptor.
    pub fn new(source: i32) -> (register: RegisterFd)
        ensures
            register.wf(),
            register.source == source,
            register.duplicates@ == Seq::<i32>::empty(),
            register.added == 0,
    {
        RegisterFd { source, duplicates: Vec::new(), added: 0 }
    }

    /// What is to be done next; nothing once both duplicates have been added.
    pub fn next_step(&self) -> (step: Option<RegisterStep>)
        requires
            self.wf(),
        ensures
            step == self.spec_step(),
    {
        let made: usize = self.duplicates.len();
        if made == 0 {
            Some(RegisterStep::Duplicate { fd: self.source, filter: Filter(EPOLLIN) })
        } else if made == 1 {
            Some(RegisterStep::Duplicate { fd: self.source, filter: Filter(EPOLLOUT) })
        } else if self.added == 0 {
            Some(RegisterStep::Add { fd: self.duplicates[0], filter: Filter(EPOLLIN) })
        } else if self.added == 1 {
            Some(RegisterStep::Add { fd: self.duplicates[1], filter: Filter(EPOLLOUT) })
        } else {
            None
        }
    }

    /// Takes in the answer to the step that came next: the duplicate, or zero for one that was
    /// added. A failure ends the registration.
    pub fn step_done(&mut self, returned: i32, last_error: Error) -> (result: Result<(), Error>)
        requires
            old(self).wf(),
            old(self).spec_step() is Some,
        ensures
            final(self).wf(),
            final(self).source == old(self).source,
            match old(self).spec_step()->0 {
                RegisterStep::Duplicate { fd, filter } => {
                    &&& result == (if returned < 0 {
                        Err(last_error)
                    } else {
                        Ok(())
                    })
                    &&& final(self).duplicates@ == (if returned < 0 {
                        old(self).duplicates@
                    } else {
                        old(self).duplicates@.push(returned)
                    })
                    &&& final(self).added == old(self).added
                },
                RegisterStep::Add { fd, filter } => {
                    &&& result == (if returned != 0 {
                        Err(last_error)
                    } else {
                        Ok(())
                    })
                    &&& final(self).duplicates@ == old(self).duplicates@
                    &&& final(self).added == old(self).added + (if returned != 0 {
                        0int
                    } else {
                        1
                    })
                },
            },
    {
        if self.duplicates.len() < 2 {
            match check_descriptor(returned, last_error) {
                Ok(fd) => {
                    self.duplicates.push(fd);
                    Ok(())
                },
                Err(error) => Err(error),
            }
        } else {
            match check_status(returned, last_error) {
                Ok(()) => {
                    self.added = self.added + 1;
                    Ok(())
                },
                Err(error) => Err(error),
            }
        }
    }
}

/// What is to be removed from the event queue once no holder of a registration is left: each
/// duplicate, with the mask of its class, since some kernels refuse an empty mask.
pub fn removals(duplicates: &FilterCollection<i32>) -> (removals: Vec<(i32, u32)>)
    ensures
        removals@ == seq![(duplicates.read, EPOLLIN), (duplicates.write, EPOLLOUT)],
{
    let mut removals: Vec<(i32, u32)> = Vec::new();
    let mut iter: FilterCollectionIter<'_, i32> = duplicates.iter();
    let ghost all = iter.remaining();
    loop
        invariant
            removals@.len() + iter.remaining().len() == all.len(),
            iter.remaining() == all.skip(removals@.len() as int),
            forall|at: int|
                0 <= at < removals@.len() ==> #[trigger] removals@[at] == (*all[at].1, all[at].0.0),
        ensures
            removals@.len() == all.len(),
            forall|at: int|
                0 <= at < removals@.len() ==> #[trigger] removals@[at] == (*all[at].1, all[at].0.0),
        decreases iter.remaining().len(),
    {
        match iter.next() {
            Some((filter, fd)) => {
                removals.push((*fd, filter.0));
            },
            None => {
                break;
            },
        }
    }
    removals
}

/// An event is asked for by the bit of its class, as an edge and a single time, and by nothing else.
pub proof fn law_request_is_for_one_event(filter: Filter)
    ensures
        single_event(filter) & 0x4000_0000 == 0x4000_0000,
        single_event(filter) & 0x8000_0000 == 0x8000_0000,
        single_event(filter) & 0x3fff_ffff == filter.0 & 0x3fff_ffff,
{
    let bits = filter.0;
    assert((bits | 0x8000_0000 | 0x4000_0000) & 0x4000_0000 == 0x4000_0000) by (bit_vector);
    assert((bits | 0x8000_0000 | 0x4000_0000) & 0x8000_0000 == 0x8000_0000) by (bit_vector);
    assert((bits | 0x8000_0000 | 0x4000_0000) & 0x3fff_ffff == bits & 0x3fff_ffff) by (bit_vector);
}

/// A descriptor is registered by two duplicates of its own, one for each class, and each of them is
/// added for the class that it was made for; both are made before one is added, and nothing is left
/// to do once both are.
pub proof fn law_descriptor_is_registered_by_two_duplicates(register: RegisterFd)
    requires
        register.duplicates@.len() <= 2,
        register.added <= 2,
    ensures
        register.duplicates@.len() == 0 ==> register.spec_step() == Some(
            RegisterStep::Duplicate { fd: register.source, filter: Filter(0x1) },
        ),
        register.duplicates@.len() == 1 ==> register.spec_step() == Some(
            RegisterStep::Duplicate { fd: register.source, filter: Filter(0x4) },
        ),
        register.duplicates@.len() == 2 && register.added == 0 ==> register.spec_step() == Some(
            RegisterStep::Add { fd: register.duplicates@[0], filter: Filter(0x1) },
        ),
        register.duplicates@.len() == 2 && register.added == 1 ==> register.spec_step() == Some(
            RegisterStep::Add { fd: register.duplicates@[1], filter: Filter(0x4) },
        ),
        register.duplicates@.len() == 2 && register.added == 2 <==> register.spec_step() is None,
{
}

/// A holder for a descriptor is for that descriptor and remembers nothing.
pub proof fn law_new_holder_remembers_nothing(fd: i32)
    ensures
        Registration::fresh(fd).fd == fd,
        Registration::fresh(fd).wakers.read is None,
        Registration::fresh(fd).wakers.write is None,
{
}

} // verus!
