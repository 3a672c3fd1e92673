//! One turn of an event queue over `kqueue`: the wait, and the work that each event asks for.
use vstd::prelude::*;

#[allow(unused_imports)]
use super::change::Change;
#[allow(unused_imports)]
use super::change::{EVFILT_MACHPORT, EVFILT_USER, EV_ERROR};
use super::filter::Filter;
#[allow(unused_imports)]
use super::filter::{EVFILT_READ, EVFILT_WRITE};
use crate::error::Error;
#[allow(unused_imports)]
use crate::queue::wait::{signed_secs, turn_capacity};
use crate::queue::wait::{event_capacity, kqueue_timespec, TimeSpec, WaitTime};

verus! {

/// An event as `kevent` reports it. `udata` is the token that was handed in with the change.
#[derive(Clone, Copy, PartialEq, Eq, Debug)]
pub struct ReadyEvent {
    pub ident: usize,
    pub filter: i16,
    pub flags: u16,
    pub data: isize,
    pub udata: usize,
}

/// The work that an event asks for.
#[derive(Clone, Copy, PartialEq, Eq, Debug, Structural)]
pub enum Dispatch {
    /// Deliver the event to the state that the registration keeps for `filter`, and wake the wakers
    /// that come out.
    Signal { token: usize, filter: Filter },
    /// Deliver the event to the state of the port, and wake the wakers that come out.
    SignalPort { token: usize },
    /// Hand the value to the handler of the user event.
    RunHandler { token: usize, value: usize },
}

/// How long and for how many events a turn waits; without a span it waits for the first event.
#[derive(Clone, Copy, PartialEq, Eq, Debug)]
pub struct Wait {
    pub capacity: usize,
    pub timeout: Option<TimeSpec>,
}

/// The work for one event: none for an error, or for a class that is not known.
pub open spec fn event_dispatch(event: ReadyEvent) -> Option<Dispatch> {
    if event.flags & EV_ERROR != 0 {
        None
    } else if event.filter == EVFILT_READ || event.filter == EVFILT_WRITE {
        Some(Dispatch::Signal { token: event.udata, filter: Filter(event.filter) })
    } else if event.filter == EVFILT_MACHPORT {
        Some(Dispatch::SignalPort { token: event.udata })
    } else if event.filter == EVFILT_USER {
        Some(Dispatch::RunHandler { token: event.ident, value: event.data as usize })
    } else {
        None
    }
}

/// The work for a succession of events, in their order.
pub open spec fn dispatches(events: Seq<ReadyEvent>) -> Seq<Dispatch>
    decreases events.len(),
{
    if events.len() == 0 {
        Seq::empty()
    } else {
        match event_dispatch(events.last()) {
            Some(dispatch) => dispatches(events.drop_last()).push(dispatch),
            None => dispatches(events.drop_last()),
        }
    }
}

/// The work for one event.
pub fn dispatch_event(event: ReadyEvent) -> (dispatch: Option<Dispatch>)
    ensures
        dispatch == event_dispatch(event),
{
    if event.flags & EV_ERROR != 0 {
        return None;
    }
    if event.filter == EVFILT_READ || event.filter == EVFILT_WRITE {
        Some(Dispatch::Signal { token: event.udata, filter: Filter(event.filter) })
    } else if event.filter == EVFILT_MACHPORT {
        Some(Dispatch::SignalPort { token: event.udata })
    } else if event.filter == EVFILT_USER {
        Some(Dispatch::RunHandler { token: event.ident, value: event.data as usize })
    } else {
        None
    }
}

/// Begins a turn that waits no longer and takes in no more events than it is told.
pub fn turn_wait(max_wait: Option<WaitTime>, max_events: Option<usize>) -> (wait: Wait)
    ensures
        wait.capacity == turn_capacity(max_events),
        wait.timeout is Some <==> max_wait is Some,
        max_wait matches Some(time) ==> {
            &&& wait.timeout->0.tv_sec == signed_secs(time.secs)
            &&& wait.timeout->0.tv_nsec == time.nanos
        },
{
    Wait { capacity: event_capacity(max_events), timeout: kqueue_timespec(max_wait) }
}

/// Ends the wait of a turn: the number of events it took in, and the work that they ask for. A
/// failed wait ends the turn, an interrupted one too.
pub fn turn_events(answer: Result<Vec<ReadyEvent>, Error>) -> (result: Result<
    (usize, Vec<Dispatch>),
    Error,
>)
    ensures
        match answer {
            Ok(events) => {
                &&& result is Ok
                &&& result->Ok_0.0 == events@.len()
                &&& result->Ok_0.1@ == dispatches(events@)
            },
            Err(error) => result == Err::<(usize, Vec<Dispatch>), Error>(error),
        },
{
    match answer {
        Ok(events) => {
            let mut work: Vec<Dispatch> = Vec::new();
            let count: usize = events.len();
            for index in 0..count
                invariant
                    count == events@.len(),
                    work@ == dispatches(events@.take(index as int)),
            {
                assert(events@.take(index + 1).drop_last() == events@.take(index as int));
                if let Some(dispatch) = dispatch_event(events[index]) {
                    work.push(dispatch);
                }
            }
            assert(events@.take(count as int) == events@);
            Ok((count, work))
        },
        Err(error) => Err(error),
    }
}

/// A user event hands its handler the value that it was raised with: where the event comes back for
/// a change that named `token` and carried `data`, the handler of `token` gets `data`.
pub proof fn law_user_event_returns_value(token: usize, data: usize, change: Change, flags: u16)
    requires
        change.ident == token,
        change.filter == EVFILT_USER,
        change.data == data as isize,
        flags & EV_ERROR == 0,
    ensures
        event_dispatch(
            ReadyEvent {
                ident: change.ident,
                filter: change.filter,
                flags,
                data: change.data,
                udata: change.udata,
            },
        ) == Some(Dispatch::RunHandler { token, value: data }),
{
    assert((data as isize) as usize == data) by (bit_vector);
}

/// An event asks for the work of its own class, with its own token, and for no other: a descriptor
/// that can be read or written is signalled for that class, a port that has a message is signalled,
/// and a user event has its handler run with its value. An error asks for nothing, and neither does
/// a class that nobody asked for.
pub proof fn law_event_asks_for_its_own_work(event: ReadyEvent, token: usize, filter: Filter, value: usize)
    ensures
        event_dispatch(event) == Some(Dispatch::Signal { token, filter }) <==> event.flags & EV_ERROR
            == 0 && event.filter == filter.0 && (filter.0 == EVFILT_READ || filter.0
            == EVFILT_WRITE) && event.udata == token,
        event_dispatch(event) == Some(Dispatch::SignalPort { token }) <==> event.flags & EV_ERROR == 0
            && event.filter == EVFILT_MACHPORT && event.udata == token,
        event_dispatch(event) == Some(Dispatch::RunHandler { token, value }) <==> event.flags
            & EV_ERROR == 0 && event.filter == EVFILT_USER && event.ident == token && event.data
            as usize == value,
        event_dispatch(event) is None <==> event.flags & EV_ERROR != 0 || !(event.filter
            == EVFILT_READ || event.filter == EVFILT_WRITE || event.filter == EVFILT_MACHPORT
            || event.filter == EVFILT_USER),
{
}

/// A turn asks for the work of each of its events, and in their order: what comes of a succession of
/// events is what comes of its first part, followed by what comes of the rest.
pub proof fn law_turn_serves_every_event_in_order(first: Seq<ReadyEvent>, rest: Seq<ReadyEvent>)
    ensures
        dispatches(first + rest) == dispatches(first) + dispatches(rest),
    decreases rest.len(),
{
    if rest.len() == 0 {
        assert(first + rest == first);
        assert(dispatches(rest) == Seq::<Dispatch>::empty());
        assert(dispatches(first) + dispatches(rest) == dispatches(first));
    } else {
        assert((first + rest).drop_last() == first + rest.drop_last());
        assert((first + rest).last() == rest.last());
        law_turn_serves_every_event_in_order(first, rest.drop_last());
        assert(dispatches(first + rest) == dispatches(first) + dispatches(rest));
    }
}

/// A turn with a single event asks for the work of that event, once.
pub proof fn law_single_event_is_served_once(event: ReadyEvent)
    ensures
        dispatches(Seq::<ReadyEvent>::empty()).len() == 0,
        event_dispatch(event) is None ==> dispatches(seq![event]).len() == 0,
        event_dispatch(event) is Some ==> dispatches(seq![event]).len() == 1 && Some(
            dispatches(seq![event])[0],
        ) == event_dispatch(event),
{
    assert(seq![event].drop_last() == Seq::<ReadyEvent>::empty());
    assert(dispatches(Seq::<ReadyEvent>::empty()) == Seq::<Dispatch>::empty());
    assert(seq![event].last() == event);
}

/// How often a piece of work is asked for.
pub open spec fn askings(work: Seq<Dispatch>, dispatch: Dispatch) -> int
    decreases work.len(),
{
    if work.len() == 0 {
        0
    } else {
        askings(work.drop_last(), dispatch) + (if work.last() == dispatch {
            1int
        } else {
            0
        })
    }
}

/// How many events name one class of one registration, and are no errors.
pub open spec fn namings(events: Seq<ReadyEvent>, token: usize, filter: Filter) -> int
    decreases events.len(),
{
    if events.len() == 0 {
        0
    } else {
        let event = events.last();
        namings(events.drop_last(), token, filter) + (if event.flags & EV_ERROR == 0 && event.udata
            == token && event.filter == filter.0 {
            1int
        } else {
            0
        })
    }
}

/// A turn signals a class of a registration as often as its events name it: no event is passed over,
/// and none is delivered twice or to another object.
pub proof fn law_turn_signals_each_event(events: Seq<ReadyEvent>, token: usize, filter: Filter)
    requires
        filter.0 == EVFILT_READ || filter.0 == EVFILT_WRITE,
    ensures
        askings(dispatches(events), Dispatch::Signal { token, filter }) == namings(
            events,
            token,
            filter,
        ),
    decreases events.len(),
{
    if events.len() > 0 {
        let fewer = events.drop_last();
        let signal = Dispatch::Signal { token, filter };
        law_turn_signals_each_event(fewer, token, filter);
        match event_dispatch(events.last()) {
            Some(dispatch) => {
                assert(dispatches(fewer).push(dispatch).drop_last() == dispatches(fewer));
            },
            None => {},
        }
    }
}

} // verus!
