//! One turn of an event queue over `epoll`: the wait, and the work that each event asks for.
use vstd::prelude::*;

use super::filter::{Filter, FilterSet};
#[allow(unused_imports)]
use super::filter::{EPOLLIN, EPOLLOUT};
use crate::error::{Error, ErrorKind};
use crate::queue::wait::{epoll_wait_millis, event_capacity, WaitTime};
#[allow(unused_imports)]
use crate::queue::wait::{epoll_timeout, turn_capacity};

verus! {

/// What the token of an event stands for.
#[derive(Clone, Copy, PartialEq, Eq, Hash, Debug, Structural)]
pub enum TokenKind {
    Registration,
    UserEvent,
}

/// An event as `epoll_wait` reports it: its mask, its token, and what the token stands for.
#[derive(Clone, Copy, PartialEq, Eq, Debug, Structural)]
pub struct ReadyEvent {
    pub events: u32,
    pub token: u64,
    pub kind: TokenKind,
}

/// A piece of work that a turn asks for.
#[derive(Clone, Copy, PartialEq, Eq, Debug, Structural)]
pub enum TurnStep {
    /// Wait for at most `capacity` events and at most `timeout` milliseconds.
    Wait { capacity: usize, timeout: i32 },
    /// Deliver the event to the state that the registration keeps for `filter`, and wake the
    /// wakers that come out.
    Signal { token: u64, filter: Filter },
    /// Mark the user event as not armed.
    Disarm { token: u64 },
    /// Read the counter of the user event.
    ReadCounter { token: u64 },
    /// Hand the values of the user event to its handler, until none waits.
    RunHandler { token: u64 },
}

/// The work for one class of one event.
pub open spec fn filter_steps(event: ReadyEvent, filter: Filter) -> Seq<TurnStep> {
    match event.kind {
        TokenKind::Registration => seq![TurnStep::Signal { token: event.token, filter }],
        TokenKind::UserEvent => seq![
            TurnStep::Disarm { token: event.token },
            TurnStep::ReadCounter { token: event.token },
            TurnStep::RunHandler { token: event.token },
        ],
    }
}

/// The work for one event: that for reading, then that for writing, where the mask holds them. No
/// other class comes with a reference to the object behind the token.
pub open spec fn event_steps(event: ReadyEvent) -> Seq<TurnStep> {
    (if FilterSet(event.events).has_filter(Filter(EPOLLIN)) {
        filter_steps(event, Filter(EPOLLIN))
    } else {
        Seq::empty()
    }) + (if FilterSet(event.events).has_filter(Filter(EPOLLOUT)) {
        filter_steps(event, Filter(EPOLLOUT))
    } else {
        Seq::empty()
    })
}

/// The work for a succession of events.
pub open spec fn plan(events: Seq<ReadyEvent>) -> Seq<TurnStep>
    decreases events.len(),
{
    if events.len() == 0 {
        Seq::empty()
    } else {
        plan(events.drop_last()) + event_steps(events.last())
    }
}

fn push_filter_steps(steps: &mut Vec<TurnStep>, event: ReadyEvent, filter: Filter)
    ensures
        final(steps)@ == old(steps)@ + filter_steps(event, filter),
{
    match event.kind {
        TokenKind::Registration => {
            steps.push(TurnStep::Signal { token: event.token, filter });
        },
        TokenKind::UserEvent => {
            steps.push(TurnStep::Disarm { token: event.token });
            steps.push(TurnStep::ReadCounter { token: event.token });
            steps.push(TurnStep::RunHandler { token: event.token });
        },
    }
}

fn push_event_steps(steps: &mut Vec<TurnStep>, event: ReadyEvent)
    ensures
        final(steps)@ == old(steps)@ + event_steps(event),
{
    let filters: Vec<Filter> = FilterSet(event.events).iter();
    let ghost before = steps@;
    let count: usize = filters.len();
    for index in 0..count
        invariant
            count == filters@.len(),
            filters@ == FilterSet(event.events).filters(),
            steps@ == before + (if index == 0 {
                Seq::empty()
            } else if index == 1 {
                filter_steps(event, filters@[0])
            } else {
                filter_steps(event, filters@[0]) + filter_steps(event, filters@[1])
            }),
            count <= 2,
    {
        push_filter_steps(steps, event, filters[index]);
    }
}

/// Lays out the work for a succession of events.
pub fn plan_steps(events: &Vec<ReadyEvent>) -> (steps: Vec<TurnStep>)
    ensures
        steps@ == plan(events@),
{
    let mut steps: Vec<TurnStep> = Vec::new();
    let count: usize = events.len();
    for index in 0..count
        invariant
            count == events@.len(),
            steps@ == plan(events@.take(index as int)),
    {
        push_event_steps(&mut steps, events[index]);
        assert(events@.take(index + 1).drop_last() == events@.take(index as int));
    }
    assert(events@.take(count as int) == events@);
    steps
}

/// Where a turn stands.
#[verifier::ext_equal]
pub enum TurnModel {
    /// It waits for events.
    Waiting { capacity: usize, timeout: i32 },
    /// It took in `count` events and has this work left, which is not empty.
    Dispatching { count: usize, steps: Seq<TurnStep> },
    /// It is over.
    Over(Result<usize, Error>),
}

/// Where a turn stands that took in `count` events and has `steps` left.
pub open spec fn dispatching(count: usize, steps: Seq<TurnStep>) -> TurnModel {
    if steps.len() == 0 {
        TurnModel::Over(Ok(count))
    } else {
        TurnModel::Dispatching { count, steps }
    }
}

impl TurnModel {
    /// Where the turn stands once the wait has been answered: an interrupted wait is taken up
    /// again, another failure ends the turn.
    pub open spec fn after_wait(self, answer: Result<Seq<ReadyEvent>, Error>) -> TurnModel {
        match answer {
            Ok(events) => dispatching(events.len() as usize, plan(events)),
            Err(error) => if error.spec_kind() == ErrorKind::Interrupted {
                self
            } else {
                TurnModel::Over(Err(error))
            },
        }
    }

    /// Where the turn stands once its next piece of work has been done, or has failed.
    pub open spec fn after_step(self, answer: Result<(), Error>) -> TurnModel {
        match answer {
            Ok(()) => dispatching(self->count, self->steps.drop_first()),
            Err(error) => if error.spec_kind() == ErrorKind::Interrupted {
                self
            } else {
                TurnModel::Over(Err(error))
            },
        }
    }
}

enum Phase {
    Waiting,
    Dispatching { count: usize, steps: Vec<TurnStep>, next: usize },
    Over(Result<usize, Error>),
}

/// One turn of an event queue.
pub struct Turn {
    capacity: usize,
    timeout: i32,
    phase: Phase,
}

impl View for Turn {
    type V = TurnModel;

    closed spec fn view(&self) -> TurnModel {
        match self.phase {
            Phase::Waiting => TurnModel::Waiting { capacity: self.capacity, timeout: self.timeout },
            Phase::Dispatching { count, steps, next } => dispatching(
                count,
                steps@.skip(next as int),
            ),
            Phase::Over(result) => TurnModel::Over(result),
        }
    }
}

impl Turn {
    #[verifier::type_invariant]
    spec fn wf(self) -> bool {
        match self.phase {
            Phase::Dispatching { count, steps, next } => next <= steps@.len(),
            _ => true,
        }
    }

    /// Begins a turn that waits no longer and takes in no more events than it is told.
    pub fn new(max_wait: Option<WaitTime>, max_events: Option<usize>) -> (turn: Turn)
        requires
            max_wait is Some ==> max_wait->0.wf(),
        ensures
            turn@ == (TurnModel::Waiting {
                capacity: turn_capacity(max_events),
                timeout: epoll_timeout(max_wait) as i32,
            }),
    {
        Turn {
            capacity: event_capacity(max_events),
            timeout: epoll_wait_millis(max_wait),
            phase: Phase::Waiting,
        }
    }

    /// The work that comes next, or what the turn came to: the number of events it took in.
    pub fn next_step(&self) -> (step: Result<TurnStep, Result<usize, Error>>)
        ensures
            step == (match self@ {
                TurnModel::Waiting { capacity, timeout } => Ok(
                    TurnStep::Wait { capacity, timeout },
                ),
                TurnModel::Dispatching { count, steps } => Ok(steps.first()),
                TurnModel::Over(result) => Err(result),
            }),
    {
        proof {
            use_type_invariant(self);
        }
        match &self.phase {
            Phase::Waiting => Ok(
                TurnStep::Wait { capacity: self.capacity, timeout: self.timeout },
            ),
            Phase::Dispatching { count, steps, next } => if *next < steps.len() {
                Ok(steps[*next])
            } else {
                Err(Ok(*count))
            },
            Phase::Over(result) => Err(*result),
        }
    }

    /// Takes in the answer to the wait.
    pub fn waited(&mut self, answer: Result<Vec<ReadyEvent>, Error>)
        requires
            old(self)@ is Waiting,
        ensures
            final(self)@ == old(self)@.after_wait(
                match answer {
                    Ok(events) => Ok(events@),
                    Err(error) => Err(error),
                },
            ),
    {
        match answer {
            Ok(events) => {
                let steps: Vec<TurnStep> = plan_steps(&events);
                assert(steps@.skip(0) == steps@);
                self.phase = Phase::Dispatching { count: events.len(), steps, next: 0 };
            },
            Err(error) => {
                if error.kind() != ErrorKind::Interrupted {
                    self.phase = Phase::Over(Err(error));
                }
            },
        }
    }

    /// Takes in how the piece of work that came next went. Only reading the counter of a user event
    /// can fail, and never for want of a value, since the event says that there is one.
    pub fn step_done(&mut self, answer: Result<(), Error>)
        requires
            old(self)@ is Dispatching,
            answer matches Err(error) ==> {
                &&& old(self)@->steps.first() is ReadCounter
                &&& error.spec_kind() != ErrorKind::WouldBlock
            },
        ensures
            final(self)@ == old(self)@.after_step(answer),
    {
        proof {
            use_type_invariant(&*self);
        }
        match answer {
            Ok(()) => {
                let mut phase: Phase = Phase::Waiting;
                core::mem::swap(&mut phase, &mut self.phase);
                if let Phase::Dispatching { count, steps, next } = phase {
                    assert(next < steps.len());
                    assert(steps@.skip(next as int).drop_first() == steps@.skip(next + 1));
                    self.phase = Phase::Dispatching { count, steps, next: next + 1 };
                }
            },
            Err(error) => {
                if error.kind() != ErrorKind::Interrupted {
                    self.phase = Phase::Over(Err(error));
                }
            },
        }
    }
}

/// How often the work signals one class of one registration.
pub open spec fn signals(steps: Seq<TurnStep>, token: u64, filter: Filter) -> int
    decreases steps.len(),
{
    if steps.len() == 0 {
        0
    } else {
        signals(steps.drop_last(), token, filter) + (if steps.last() == (TurnStep::Signal {
            token,
            filter,
        }) {
            1int
        } else {
            0
        })
    }
}

/// How many events name one class of one registration.
pub open spec fn namings(events: Seq<ReadyEvent>, token: u64, filter: Filter) -> int
    decreases events.len(),
{
    if events.len() == 0 {
        0
    } else {
        let event = events.last();
        namings(events.drop_last(), token, filter) + (if event.kind == TokenKind::Registration
            && event.token == token && FilterSet(event.events).has_filter(filter) {
            1int
        } else {
            0
        })
    }
}

proof fn lemma_signals_add(left: Seq<TurnStep>, right: Seq<TurnStep>, token: u64, filter: Filter)
    ensures
        signals(left + right, token, filter) == signals(left, token, filter) + signals(
            right,
            token,
            filter,
        ),
    decreases right.len(),
{
    if right.len() == 0 {
        assert(left + right == left);
    } else {
        assert((left + right).drop_last() == left + right.drop_last());
        lemma_signals_add(left, right.drop_last(), token, filter);
    }
}

proof fn lemma_filter_signals(event: ReadyEvent, of: Filter, token: u64, filter: Filter)
    ensures
        signals(filter_steps(event, of), token, filter) == (if event.kind == TokenKind::Registration
            && event.token == token && of == filter {
            1int
        } else {
            0
        }),
{
    let steps = filter_steps(event, of);
    reveal_with_fuel(signals, 4);
    match event.kind {
        TokenKind::Registration => {
            assert(steps.drop_last() == Seq::<TurnStep>::empty());
        },
        TokenKind::UserEvent => {
            assert(steps.drop_last() == seq![steps[0], steps[1]]);
            assert(steps.drop_last().drop_last() == seq![steps[0]]);
            assert(steps.drop_last().drop_last().drop_last() == Seq::<TurnStep>::empty());
        },
    }
}

/// A turn signals a class of a registration as often as its events name it: no event is passed
/// over, and none is delivered twice or to another object.
pub proof fn law_turn_signals_each_event(events: Seq<ReadyEvent>, token: u64, filter: Filter)
    requires
        filter.valid(),
    ensures
        signals(plan(events), token, filter) == namings(events, token, filter),
    decreases events.len(),
{
    if events.len() > 0 {
        let event = events.last();
        law_turn_signals_each_event(events.drop_last(), token, filter);
        lemma_signals_add(plan(events.drop_last()), event_steps(event), token, filter);
        let read = filter_steps(event, Filter(EPOLLIN));
        let write = filter_steps(event, Filter(EPOLLOUT));
        lemma_filter_signals(event, Filter(EPOLLIN), token, filter);
        lemma_filter_signals(event, Filter(EPOLLOUT), token, filter);
        lemma_signals_add(read, write, token, filter);
        assert(read + Seq::empty() == read);
        assert(Seq::empty() + write == write);
    }
}

/// A turn asks for the work of each of its events, and in their order: what comes of a succession of
/// events is what comes of its first part, followed by what comes of the rest.
pub proof fn law_turn_serves_every_event_in_order(first: Seq<ReadyEvent>, rest: Seq<ReadyEvent>)
    ensures
        plan(first + rest) == plan(first) + plan(rest),
    decreases rest.len(),
{
    if rest.len() == 0 {
        assert(first + rest == first);
        assert(plan(first) + plan(rest) == plan(first));
    } else {
        assert((first + rest).drop_last() == first + rest.drop_last());
        assert((first + rest).last() == rest.last());
        law_turn_serves_every_event_in_order(first, rest.drop_last());
        assert(plan(first + rest) == plan(first) + plan(rest));
    }
}

/// An event of a registration signals its classes, reading before writing; a user event is disarmed
/// and its counter read before its handler runs, so that a value that is raised meanwhile is not
/// lost. All of it is for the object that the token of the event stands for.
pub proof fn law_event_asks_for_its_own_work(event: ReadyEvent)
    requires
        event.events & 0x4 == 0 || event.events & 0x1 == 0,
    ensures
        event.events & 0x1 == 0 && event.events & 0x4 == 0 ==> plan(seq![event]).len() == 0,
        event.kind is Registration && event.events & 0x1 != 0 ==> plan(seq![event]) == seq![
            TurnStep::Signal { token: event.token, filter: Filter(0x1) },
        ],
        event.kind is Registration && event.events & 0x4 != 0 ==> plan(seq![event]) == seq![
            TurnStep::Signal { token: event.token, filter: Filter(0x4) },
        ],
        event.kind is UserEvent && (event.events & 0x1 != 0 || event.events & 0x4 != 0) ==> {
            &&& plan(seq![event]).len() == 3
            &&& plan(seq![event])[0] == (TurnStep::Disarm { token: event.token })
            &&& plan(seq![event])[1] == (TurnStep::ReadCounter { token: event.token })
            &&& plan(seq![event])[2] == (TurnStep::RunHandler { token: event.token })
        },
{
    lemma_single_plan(event);
}

/// An event that can be read and written is served as one that can be read, followed by one that can
/// be written.
pub proof fn law_event_of_both_classes_is_served_twice(event: ReadyEvent)
    requires
        event.events & 0x1 != 0,
        event.events & 0x4 != 0,
    ensures
        plan(seq![event]) == plan(seq![ReadyEvent { events: 0x1, ..event }]) + plan(
            seq![ReadyEvent { events: 0x4, ..event }],
        ),
{
    let read = ReadyEvent { events: 0x1, ..event };
    let write = ReadyEvent { events: 0x4, ..event };
    lemma_single_plan(event);
    lemma_single_plan(read);
    lemma_single_plan(write);
    assert(0x1u32 & 0x1 != 0 && 0x1u32 & 0x4 == 0 && 0x4u32 & 0x1 == 0 && 0x4u32 & 0x4 != 0)
        by (bit_vector);
    assert(event_steps(event) == event_steps(read) + event_steps(write));
}

proof fn lemma_single_plan(event: ReadyEvent)
    ensures
        plan(seq![event]) == event_steps(event),
{
    assert(seq![event].drop_last() == Seq::<ReadyEvent>::empty());
    assert(plan(Seq::<ReadyEvent>::empty()) == Seq::<TurnStep>::empty());
    assert(seq![event].last() == event);
    assert(plan(seq![event]) == event_steps(event));
}

/// Where a turn stands after some of its work has been done, one piece after the other.
pub open spec fn after_steps(model: TurnModel, done: nat) -> TurnModel
    decreases done,
{
    if done == 0 {
        model
    } else {
        after_steps(model, (done - 1) as nat).after_step(Ok(()))
    }
}

/// A turn does all of its work, piece by piece and in order, and only then tells how many events it
/// took in.
pub proof fn law_turn_does_all_of_its_work(model: TurnModel, events: Seq<ReadyEvent>, done: nat)
    requires
        events.len() <= usize::MAX,
        done <= plan(events).len(),
    ensures
        ({
            let after = after_steps(model.after_wait(Ok(events)), done);
            &&& done < plan(events).len() ==> after is Dispatching && after->steps.first()
                == plan(events)[done as int]
            &&& done == plan(events).len() ==> after == TurnModel::Over(Ok(events.len() as usize))
        }),
{
    lemma_after_steps(model, events, done);
}

proof fn lemma_after_steps(model: TurnModel, events: Seq<ReadyEvent>, done: nat)
    requires
        done <= plan(events).len(),
    ensures
        after_steps(model.after_wait(Ok(events)), done) == dispatching(
            events.len() as usize,
            plan(events).skip(done as int),
        ),
    decreases done,
{
    if done == 0 {
        assert(plan(events).skip(0) == plan(events));
    } else {
        lemma_after_steps(model, events, (done - 1) as nat);
        assert(plan(events).skip(done - 1).drop_first() == plan(events).skip(done as int));
    }
}

/// An interruption is no failure: what was interrupted is done again. Any other failure ends the turn
/// with its error.
pub proof fn law_interrupted_turn_goes_on(model: TurnModel, code: i32, kind: ErrorKind)
    ensures
        kind == ErrorKind::Interrupted ==> model.after_wait(Err(Error::Os { code, kind })) == model
            && model.after_step(Err(Error::Os { code, kind })) == model,
        kind != ErrorKind::Interrupted ==> model.after_wait(Err(Error::Os { code, kind }))
            == TurnModel::Over(Err(Error::Os { code, kind })) && model.after_step(
            Err(Error::Os { code, kind }),
        ) == TurnModel::Over(Err(Error::Os { code, kind })),
{
}

} // verus!
