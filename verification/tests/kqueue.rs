use compio::error::{Error, ErrorKind};
use compio::poll::Poll;
use compio::queue::flag::FlagState;
use compio::queue::flag_subscription::FlagClearStep;
use compio::queue::kqueue::change::{
    change_answer, fd_change, port_change, trigger_change, Change, Receipt, EVFILT_MACHPORT, EVFILT_USER,
    EV_ERROR,
};
use compio::queue::kqueue::filter::{Filter, FilterCollection, EVFILT_READ, EVFILT_WRITE};
use compio::queue::kqueue::mach::PortRegistration;
use compio::queue::kqueue::registered::{Registered, FD_REGISTERED, PORT_REGISTERED};
use compio::queue::kqueue::registration::{FlagRegistration, Registration};
use compio::queue::kqueue::turn::{dispatch_event, turn_events, turn_wait, Dispatch, ReadyEvent};
use compio::queue::state::RegistrationState;
use compio::queue::subscription::{ClearStep, ConfirmStep, PollStep, QUEUE_DROPPED};
use compio::queue::wait::{kqueue_timespec, TimeSpec, WaitTime};

const READ: Filter = Filter(EVFILT_READ);
const WRITE: Filter = Filter(EVFILT_WRITE);

fn os(code: i32) -> Error {
    Error::Os { code, kind: ErrorKind::Other }
}

fn granted() -> Vec<Receipt> {
    vec![Receipt { data: 0, error: os(0) }]
}

#[test]
fn changes_that_are_asked_for() {
    assert_eq!(
        fd_change(7, WRITE, 0x1000),
        Change { ident: 7, filter: -2, flags: 0x71, fflags: 0, data: 0, udata: 0x1000 }
    );
    assert_eq!(
        port_change(0x903, 0x2000),
        Change { ident: 0x903, filter: -8, flags: 0x71, fflags: 0, data: 0, udata: 0x2000 }
    );
    assert_eq!(
        trigger_change(0x3000, 42),
        Change { ident: 0x3000, filter: -10, flags: 0x71, fflags: 0x0100_0000, data: 42, udata: 0 }
    );
}

#[test]
fn receipts_of_changes() {
    let refused = Receipt { data: 9, error: os(9) };
    assert_eq!(change_answer(1, os(1), &granted()), Ok(()));
    assert_eq!(change_answer(0, os(1), &Vec::new()), Ok(()));
    assert_eq!(change_answer(-1, os(1), &granted()), Err(os(1)));
    assert_eq!(change_answer(1, os(1), &vec![refused]), Err(os(9)));
    let mixed = vec![Receipt { data: 0, error: os(0) }, Receipt { data: 3, error: os(3) }, refused];
    assert_eq!(change_answer(3, os(1), &mixed), Err(os(3)));
}

#[test]
fn events_are_dispatched() {
    let event = |filter: i16, flags: u16| ReadyEvent { ident: 5, filter, flags, data: -1, udata: 6 };
    assert_eq!(dispatch_event(event(EVFILT_READ, 0)), Some(Dispatch::Signal { token: 6, filter: READ }));
    assert_eq!(dispatch_event(event(EVFILT_WRITE, 0)), Some(Dispatch::Signal { token: 6, filter: WRITE }));
    assert_eq!(dispatch_event(event(EVFILT_MACHPORT, 0)), Some(Dispatch::SignalPort { token: 6 }));
    assert_eq!(
        dispatch_event(event(EVFILT_USER, 0)),
        Some(Dispatch::RunHandler { token: 5, value: usize::MAX })
    );
    assert_eq!(dispatch_event(event(-3, 0)), None);
    assert_eq!(dispatch_event(event(EVFILT_READ, EV_ERROR)), None);
    let events = vec![event(EVFILT_READ, EV_ERROR), event(EVFILT_MACHPORT, 0), event(-3, 0)];
    assert_eq!(turn_events(Ok(events)), Ok((3, vec![Dispatch::SignalPort { token: 6 }])));
    assert_eq!(turn_events(Err(os(4))), Err(os(4)));
}

#[test]
fn a_raised_value_comes_back() {
    for value in [0usize, 42, usize::MAX, isize::MAX as usize + 1] {
        let change = trigger_change(0x3000, value);
        let event = ReadyEvent {
            ident: change.ident,
            filter: change.filter,
            flags: 0x30,
            data: change.data,
            udata: change.udata,
        };
        assert_eq!(dispatch_event(event), Some(Dispatch::RunHandler { token: 0x3000, value }));
    }
}

#[test]
fn waits_as_time_specifications() {
    let wait = turn_wait(Some(WaitTime { secs: 3, nanos: 500 }), Some(2));
    assert_eq!(wait.capacity, 2);
    assert_eq!(wait.timeout, Some(TimeSpec { tv_sec: 3, tv_nsec: 500 }));
    assert_eq!(turn_wait(None, None).timeout, None);
    assert_eq!(turn_wait(None, None).capacity, 64);
    let last = kqueue_timespec(Some(WaitTime { secs: u64::MAX, nanos: 0 }));
    assert_eq!(last, Some(TimeSpec { tv_sec: -1, tv_nsec: 0 }));
}

#[test]
fn filters_as_text_by_number() {
    assert_eq!(READ.text(), "Filter(Read)");
    assert_eq!(WRITE.text(), "Filter(Write)");
    assert_eq!(Filter(-5).text(), format!("Filter({:#x})", -5i16));
    assert_eq!(Filter(-5).text(), "Filter(0xfffb)");
    assert_eq!(Filter(3).text(), "Filter(0x3)");
}

#[test]
fn collections_by_number() {
    let mut collection = FilterCollection { read: 'r', write: 'w' };
    assert_eq!(*collection.index(READ), 'r');
    *collection.index_mut(WRITE) = 'x';
    assert_eq!((collection.read, collection.write), ('r', 'x'));
}

#[test]
fn a_descriptor_is_registered_once_until_released() {
    let mut registered = Registered::new();
    let taken = Error::Custom { kind: ErrorKind::AddrInUse, message: FD_REGISTERED };
    assert_eq!(registered.register_fd(4).unwrap().fd, 4);
    assert_eq!(registered.register_fd(4).err(), Some(taken));
    assert_eq!(registered.register_fd(5).unwrap().fd, 5);
    registered.release_fd(5);
    assert_eq!(registered.register_fd(4).err(), Some(taken));
    assert_eq!(registered.register_fd(5).unwrap().fd, 5);
    registered.release_fd(4);
    assert_eq!(registered.register_fd(4).unwrap().fd, 4);
}

#[test]
fn a_port_is_registered_once() {
    let mut registered = Registered::new();
    let taken = Error::Custom { kind: ErrorKind::AddrInUse, message: PORT_REGISTERED };
    assert_eq!(registered.register_mach_port(4).unwrap().port, 4);
    assert_eq!(registered.register_mach_port(4).err(), Some(taken));
    assert_eq!(
        PORT_REGISTERED,
        "the given mach port is already registered with this EventQueue"
    );
    assert!(registered.register_fd(4).is_ok());
}

#[test]
fn readiness_by_sequence() {
    let mut holder = Registration::new(3);
    let mut state = RegistrationState::new();
    assert_eq!(holder.poll_ready(READ, &mut state, 8, false), Poll::Ready(Ok(())));
    assert_eq!(holder.clear_ready(READ, &mut state, 8, true), Ok(ClearStep::Rearm(1)));
    let refused = vec![Receipt { data: 9, error: os(9) }];
    assert_eq!(holder.rearmed(READ, 1, 8, 1, os(1), &refused), Err(os(9)));
    assert_eq!(holder.subscription(READ), None);
    assert_eq!(holder.rearmed(READ, 1, 8, 1, os(1), &granted()), Ok(()));
    assert_eq!(holder.subscription(READ), Some((1, 8)));
    assert_eq!(holder.poll_ready(READ, &mut state, 7, true), Poll::Pending);
    let mut other = holder.another();
    assert_eq!(other.subscription(READ), None);
    assert_eq!(other.begin_poll(READ, 1, true), PollStep::Subscribe);
    assert_eq!(other.confirm_poll(READ, 1, 9, 1), ConfirmStep::Pending);
    assert_eq!(other.subscription(READ), Some((1, 9)));
}

#[test]
fn readiness_by_flag() {
    let mut holder = FlagRegistration::new(3);
    let mut state = FlagState::new();
    assert_eq!(holder.poll_ready(READ, &mut state, 8, false), Poll::Ready(Ok(())));
    assert_eq!(holder.clear_ready(READ, &mut state, 8, true), Ok(FlagClearStep::Rearm));
    assert_eq!(holder.rearmed(READ, 8, -1, os(1), &granted()), Err(os(1)));
    assert_eq!(holder.wakers.read, None);
    assert_eq!(holder.rearmed(READ, 8, 1, os(1), &granted()), Ok(()));
    assert_eq!(holder.wakers.read, Some(8));
    assert_eq!(holder.poll_ready(READ, &mut state, 7, true), Poll::Pending);
    assert_eq!(holder.begin_poll(READ, state.is_ready(), false), PollStep::Subscribe);
    state.subscribe(9);
    assert!(!holder.confirm_poll(READ, state.is_ready(), 9));
    assert_eq!(holder.wakers.read, Some(9));
    assert_eq!(state.deliver(), vec![8, 9]);
    assert!(holder.confirm_poll(READ, state.is_ready(), 9));
    assert_eq!(holder.wakers.read, None);
    assert_eq!(state.deliver(), Vec::<usize>::new());
}

#[test]
fn readiness_of_a_port() {
    let mut holder = PortRegistration::new(0x903);
    let mut other = holder.another();
    let mut state = FlagState::new();
    assert_eq!(holder.poll_recv_ready(&mut state, 1, false), Poll::Ready(Ok(())));
    assert_eq!(holder.clear_recv_ready(&mut state, 1, true), Ok(FlagClearStep::Rearm));
    assert_eq!(holder.rearmed(1, 1, os(1), &granted()), Ok(()));
    assert_eq!(holder.waker, Some(1));
    assert_eq!(other.clear_recv_ready(&mut state, 2, true), Ok(FlagClearStep::Subscribed));
    assert_eq!(other.waker, Some(2));
    assert_eq!(holder.poll_recv_ready(&mut state, 7, true), Poll::Pending);
    assert_eq!(holder.begin_poll(state.is_ready(), false), PollStep::Subscribe);
    state.subscribe(3);
    assert!(!holder.confirm_poll(state.is_ready(), 3));
    assert_eq!(other.poll_recv_ready(&mut state, 4, false), Poll::Pending);
    assert_eq!(other.waker, Some(4));
    assert_eq!(state.deliver(), vec![1, 2, 3, 4]);
    assert_eq!(holder.poll_recv_ready(&mut state, 1, true), Poll::Ready(Ok(())));
    assert_eq!(holder.waker, None);
    let dropped = Error::Custom { kind: ErrorKind::BrokenPipe, message: QUEUE_DROPPED };
    assert_eq!(holder.clear_recv_ready(&mut state, 1, false), Err(dropped));
    assert!(!state.is_ready());
}

#[test]
fn a_cleared_flag_stays_until_an_event() {
    let mut state = FlagState::new();
    assert!(state.clear());
    assert!(!state.clear());
    state.subscribe(4);
    assert!(!state.is_ready());
    assert_eq!(state.deliver(), vec![4]);
    assert!(state.is_ready());
    state.subscribe(5);
    assert_eq!(state.deliver(), Vec::<usize>::new());
    assert!(state.clear());
    assert_eq!(state.deliver(), vec![5]);
}

#[test]
fn an_event_of_a_flag_can_be_divided() {
    let mut state = FlagState::new();
    assert!(state.raise());
    state.clear();
    state.subscribe(1);
    state.subscribe(2);
    assert!(!state.raise());
    assert_eq!(state.pop(), Some(1));
    state.subscribe(3);
    assert_eq!(state.pop(), Some(2));
    assert_eq!(state.pop(), Some(3));
    assert_eq!(state.pop(), None);
    assert!(state.is_ready());
}
