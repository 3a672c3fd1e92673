use compio::error::{check_descriptor, check_status, Error, ErrorKind};
use compio::poll::Poll;
use compio::queue::epoll::filter::{Filter, FilterCollection, FilterSet, EPOLLIN, EPOLLOUT};
use compio::queue::epoll::registration::{
    rearm_mask, removals, RegisterFd, RegisterStep, Registration, EPOLLET, EPOLLONESHOT,
};
use compio::queue::epoll::turn::{plan_steps, ReadyEvent, TokenKind, Turn, TurnStep};
use compio::queue::epoll::user_event::{CreateStep, TriggerStep, UserEvent};
use compio::queue::state::RegistrationState;
use compio::queue::subscription::{ClearStep, ConfirmStep, PollStep, QUEUE_DROPPED};
use compio::queue::unix;
use compio::queue::wait::{epoll_wait_millis, event_capacity, WaitTime};

const READ: Filter = Filter(EPOLLIN);
const WRITE: Filter = Filter(EPOLLOUT);

fn os(code: i32, kind: ErrorKind) -> Error {
    Error::Os { code, kind }
}

fn span(secs: u64, nanos: u32) -> Option<WaitTime> {
    Some(WaitTime { secs, nanos })
}

/// Runs a turn over the events of one user event, and collects what its handler gets.
fn run_turn(events: Vec<ReadyEvent>, user_event: &mut UserEvent) -> (usize, Vec<usize>) {
    let mut turn = Turn::new(span(0, 0), None);
    let mut handled = Vec::new();
    assert_eq!(turn.next_step(), Ok(TurnStep::Wait { capacity: 64, timeout: 1 }));
    turn.waited(Ok(events));
    loop {
        match turn.next_step() {
            Ok(TurnStep::Disarm { .. }) => assert!(user_event.disarm()),
            Ok(TurnStep::ReadCounter { .. }) => {}
            Ok(TurnStep::RunHandler { .. }) => {
                while let Some(value) = user_event.pop_value() {
                    handled.push(value);
                }
            }
            Ok(step) => panic!("unexpected step {:?}", step),
            Err(result) => return (result.unwrap(), handled),
        }
        turn.step_done(Ok(()));
    }
}

#[test]
fn registration_is_send_and_sync() {
    fn is_send_and_sync<T: Send + Sync>() {}
    is_send_and_sync::<Registration>();
    is_send_and_sync::<RegistrationState>();
}

#[test]
fn user_event_is_send_and_sync() {
    fn is_send_and_sync<T: Send + Sync>() {}
    is_send_and_sync::<UserEvent>();
}

#[test]
fn turn_empty_queue() {
    let mut turn = Turn::new(span(0, 0), None);
    assert_eq!(turn.next_step(), Ok(TurnStep::Wait { capacity: 64, timeout: 1 }));
    turn.waited(Ok(Vec::new()));
    assert_eq!(turn.next_step(), Err(Ok(0)));
}

#[test]
fn simple_user_event() {
    let mut user_event = UserEvent::new();
    let event = ReadyEvent { events: EPOLLIN, token: 7, kind: TokenKind::UserEvent };
    // Shouldn't have any events prior to trigger
    assert_eq!(run_turn(Vec::new(), &mut user_event), (0, vec![]));

    // Trigger event
    assert_eq!(user_event.trigger(42), TriggerStep::Arm { mask: 0xc000_0001 });
    assert_eq!(run_turn(vec![event], &mut user_event), (1, vec![42]));

    // Shouldn't have any events after receiving instance
    assert_eq!(run_turn(Vec::new(), &mut user_event), (0, vec![]));

    // Trigger event again
    assert_eq!(user_event.trigger(62), TriggerStep::Arm { mask: 0xc000_0001 });
    assert_eq!(run_turn(vec![event], &mut user_event), (1, vec![62]));

    // Shouldn't have any events after receiving instance
    assert_eq!(run_turn(Vec::new(), &mut user_event), (0, vec![]));
}

#[test]
fn values_raised_while_armed_come_in_one_delivery() {
    let mut user_event = UserEvent::new();
    assert_eq!(user_event.trigger(1), TriggerStep::Arm { mask: 0xc000_0001 });
    assert_eq!(user_event.trigger(2), TriggerStep::Over(Ok(())));
    assert_eq!(user_event.trigger(3), TriggerStep::Over(Ok(())));
    assert!(user_event.disarm());
    assert_eq!(user_event.trigger(4), TriggerStep::Arm { mask: 0xc000_0001 });
    for value in 1..5 {
        assert_eq!(user_event.pop_value(), Some(value));
    }
    assert_eq!(user_event.pop_value(), None);
    assert!(user_event.disarm());
    assert!(!user_event.disarm());
}

#[test]
fn trigger_steps() {
    let interrupted = os(4, ErrorKind::Interrupted);
    let failed = os(9, ErrorKind::Other);
    let arm = TriggerStep::Arm { mask: 1 };
    assert_eq!(arm.next(0, failed), TriggerStep::WriteCounter);
    assert_eq!(arm.next(-1, failed), TriggerStep::Over(Err(failed)));
    let write = TriggerStep::WriteCounter;
    assert_eq!(write.next(8, failed), TriggerStep::Over(Ok(())));
    assert_eq!(write.next(-1, interrupted), TriggerStep::WriteCounter);
    assert_eq!(write.next(-1, failed), TriggerStep::Over(Err(failed)));
}

#[test]
fn user_event_creation() {
    let failed = os(24, ErrorKind::Other);
    let first = CreateStep::CreateCounter;
    assert_eq!(first.next(-1, failed), CreateStep::Over(Err(failed)));
    let second = first.next(5, failed);
    assert_eq!(second, CreateStep::Add { fd: 5 });
    assert_eq!(second.next(-1, failed), CreateStep::Over(Err(failed)));
    assert_eq!(second.next(0, failed), CreateStep::Over(Ok(5)));
}

#[test]
fn pipe_readable() {
    let mut registration = Registration::new(3);
    let mut state = RegistrationState::new();
    let waker = 17;
    // poll_ready should return ready since we haven't called clear_ready yet
    assert_eq!(registration.poll_ready(READ, &mut state, waker, false), Poll::Ready(Ok(())));
    // Notify queue fd isn't ready
    let step = registration.clear_ready(READ, &mut state, waker, true);
    assert_eq!(step, Ok(ClearStep::Rearm(1)));
    assert_eq!(rearm_mask(READ), EPOLLIN | EPOLLET | EPOLLONESHOT);
    assert_eq!(registration.rearmed(READ, 1, waker, 0, os(0, ErrorKind::Other)), Ok(()));
    assert_eq!(registration.subscription(READ), Some((1, waker)));
    assert_eq!(registration.subscription(WRITE), None);

    // Turn shouldn't return anything since the fd isn't ready
    let mut turn = Turn::new(span(0, 0), None);
    turn.waited(Ok(Vec::new()));
    assert_eq!(turn.next_step(), Err(Ok(0)));

    // The fd becomes ready
    let mut turn = Turn::new(span(5, 0), None);
    assert_eq!(turn.next_step(), Ok(TurnStep::Wait { capacity: 64, timeout: 5000 }));
    turn.waited(Ok(vec![ReadyEvent { events: EPOLLIN, token: 99, kind: TokenKind::Registration }]));
    assert_eq!(turn.next_step(), Ok(TurnStep::Signal { token: 99, filter: READ }));
    assert_eq!(state.deliver(), vec![waker]);
    turn.step_done(Ok(()));
    assert_eq!(turn.next_step(), Err(Ok(1)));
    assert_eq!(registration.poll_ready(READ, &mut state, waker, true), Poll::Ready(Ok(())));
    assert_eq!(registration.subscription(READ), None);
}

#[test]
fn polling_again_subscribes_once() {
    let mut holder = Registration::new(3);
    let mut other = holder.another();
    let mut state = RegistrationState::new();
    assert_eq!(holder.clear_ready(WRITE, &mut state, 1, true), Ok(ClearStep::Rearm(1)));
    assert_eq!(holder.rearmed(WRITE, 1, 1, 0, os(0, ErrorKind::Other)), Ok(()));
    assert_eq!(holder.begin_poll(WRITE, state.sequence(), true), PollStep::Pending);
    // Another task takes the holder over
    assert_eq!(holder.begin_poll(WRITE, state.sequence(), false), PollStep::Subscribe);
    state.subscribe(2);
    assert_eq!(holder.confirm_poll(WRITE, 1, 2, state.sequence()), ConfirmStep::Pending);
    assert_eq!(holder.subscription(WRITE), Some((1, 2)));
    // Another holder joins in
    assert_eq!(other.clear_ready(WRITE, &mut state, 3, true), Ok(ClearStep::Subscribed));
    assert_eq!(other.subscription(WRITE), Some((1, 3)));
    assert_eq!(state.deliver(), vec![1, 2, 3]);
    assert_eq!(state.sequence(), 2);
}

#[test]
fn event_during_a_poll_starts_it_over() {
    let mut holder = Registration::new(3);
    let mut state = RegistrationState::new();
    assert_eq!(state.clear(), 0);
    let sequence = state.sequence();
    assert_eq!(sequence, 1);
    assert_eq!(holder.begin_poll(READ, sequence, false), PollStep::Subscribe);
    state.subscribe(5);
    assert_eq!(state.deliver(), vec![5]);
    assert_eq!(holder.confirm_poll(READ, sequence, 5, state.sequence()), ConfirmStep::Retry(2));
    assert_eq!(holder.subscription(READ), None);
    assert_eq!(holder.begin_poll(READ, 2, false), PollStep::Ready);
}

#[test]
fn clear_fails_once_the_queue_is_gone() {
    let mut holder = Registration::new(3);
    let mut state = RegistrationState::new();
    let error = Error::Custom { kind: ErrorKind::BrokenPipe, message: QUEUE_DROPPED };
    assert_eq!(holder.clear_ready(READ, &mut state, 1, false), Err(error));
    assert_eq!(error.kind(), ErrorKind::BrokenPipe);
    assert_eq!(error.raw_os_error(), None);
    assert_eq!(state.sequence(), 1);
    assert_eq!(holder.subscription(READ), None);
    // The system refuses
    let mut state = RegistrationState::new();
    let refused = os(12, ErrorKind::Other);
    assert_eq!(holder.clear_ready(READ, &mut state, 1, true), Ok(ClearStep::Rearm(1)));
    assert_eq!(holder.rearmed(READ, 1, 1, -1, refused), Err(refused));
    assert_eq!(refused.raw_os_error(), Some(12));
    assert_eq!(holder.subscription(READ), None);
}

#[test]
fn the_system_is_asked_for_one_event_at_a_time() {
    let mut state = RegistrationState::new();
    for round in 0..3 {
        assert_eq!(state.clear() % 2, 0);
        assert_eq!(state.clear() % 2, 1);
        assert_eq!(state.clear(), 2 * round + 1);
        assert_eq!(state.deliver(), Vec::<usize>::new());
    }
    assert_eq!(state.sequence(), 6);
}

#[test]
fn a_turn_signals_what_its_events_name() {
    let events = vec![
        ReadyEvent { events: EPOLLIN | EPOLLOUT, token: 1, kind: TokenKind::Registration },
        ReadyEvent { events: 0x10, token: 2, kind: TokenKind::Registration },
        ReadyEvent { events: EPOLLOUT | 0x8, token: 3, kind: TokenKind::Registration },
        ReadyEvent { events: EPOLLIN, token: 4, kind: TokenKind::UserEvent },
    ];
    assert_eq!(
        plan_steps(&events),
        vec![
            TurnStep::Signal { token: 1, filter: READ },
            TurnStep::Signal { token: 1, filter: WRITE },
            TurnStep::Signal { token: 3, filter: WRITE },
            TurnStep::Disarm { token: 4 },
            TurnStep::ReadCounter { token: 4 },
            TurnStep::RunHandler { token: 4 },
        ]
    );
    let mut turn = Turn::new(None, Some(3));
    assert_eq!(turn.next_step(), Ok(TurnStep::Wait { capacity: 3, timeout: 0 }));
    turn.waited(Ok(events));
    for _ in 0..6 {
        turn.step_done(Ok(()));
    }
    assert_eq!(turn.next_step(), Err(Ok(4)));
}

#[test]
fn interrupted_calls_of_a_turn_are_repeated() {
    let interrupted = os(4, ErrorKind::Interrupted);
    let failed = os(9, ErrorKind::Other);
    let mut turn = Turn::new(None, None);
    turn.waited(Err(interrupted));
    assert_eq!(turn.next_step(), Ok(TurnStep::Wait { capacity: 64, timeout: 0 }));
    turn.waited(Ok(vec![ReadyEvent { events: EPOLLIN, token: 4, kind: TokenKind::UserEvent }]));
    turn.step_done(Ok(()));
    turn.step_done(Err(interrupted));
    assert_eq!(turn.next_step(), Ok(TurnStep::ReadCounter { token: 4 }));
    turn.step_done(Err(failed));
    assert_eq!(turn.next_step(), Err(Err(failed)));
    let mut turn = Turn::new(None, None);
    turn.waited(Err(failed));
    assert_eq!(turn.next_step(), Err(Err(failed)));
}

#[test]
fn waits_in_milliseconds() {
    assert_eq!(epoll_wait_millis(None), 0);
    assert_eq!(epoll_wait_millis(span(0, 0)), 1);
    assert_eq!(epoll_wait_millis(span(0, 999_999)), 1);
    assert_eq!(epoll_wait_millis(span(0, 2_999_999)), 2);
    assert_eq!(epoll_wait_millis(span(5, 250_000_000)), 5250);
    assert_eq!(epoll_wait_millis(span(2_147_483, 647_000_000)), i32::MAX);
    assert_eq!(epoll_wait_millis(span(2_147_483, 648_000_000)), i32::MAX);
    assert_eq!(epoll_wait_millis(span(u64::MAX, 999_999_999)), i32::MAX);
}

#[test]
fn capacities_of_a_turn() {
    assert_eq!(event_capacity(None), 64);
    assert_eq!(event_capacity(Some(0)), 0);
    assert_eq!(event_capacity(Some(63)), 63);
    assert_eq!(event_capacity(Some(1000)), 64);
}

#[test]
fn registering_a_descriptor() {
    let none = os(0, ErrorKind::Other);
    let mut register = RegisterFd::new(8);
    assert_eq!(register.next_step(), Some(RegisterStep::Duplicate { fd: 8, filter: READ }));
    assert_eq!(register.step_done(20, none), Ok(()));
    assert_eq!(register.next_step(), Some(RegisterStep::Duplicate { fd: 8, filter: WRITE }));
    assert_eq!(register.step_done(21, none), Ok(()));
    assert_eq!(register.next_step(), Some(RegisterStep::Add { fd: 20, filter: READ }));
    assert_eq!(register.step_done(0, none), Ok(()));
    assert_eq!(register.next_step(), Some(RegisterStep::Add { fd: 21, filter: WRITE }));
    let refused = os(17, ErrorKind::Other);
    assert_eq!(register.step_done(-1, refused), Err(refused));
    assert_eq!(register.next_step(), Some(RegisterStep::Add { fd: 21, filter: WRITE }));
    assert_eq!(register.step_done(0, none), Ok(()));
    assert_eq!(register.next_step(), None);
    assert_eq!(register.duplicates, vec![20, 21]);
    let mut register = RegisterFd::new(8);
    assert_eq!(register.step_done(-1, refused), Err(refused));
    assert_eq!(
        removals(&FilterCollection { read: 20, write: 21 }),
        vec![(20, EPOLLIN), (21, EPOLLOUT)]
    );
}

#[test]
fn answers_of_system_calls() {
    let error = os(5, ErrorKind::Other);
    assert_eq!(check_descriptor(0, error), Ok(0));
    assert_eq!(check_descriptor(-1, error), Err(error));
    assert_eq!(check_status(0, error), Ok(()));
    assert_eq!(check_status(1, error), Err(error));
    assert_eq!(check_status(-1, error), Err(error));
}

#[test]
fn filters_as_text() {
    assert_eq!(READ.text(), "Filter::READ");
    assert_eq!(WRITE.text(), "Filter::WRITE");
    assert_eq!(Filter(0x1f).text(), format!("Filter({:#x})", 0x1f));
    assert_eq!(Filter(0).text(), "Filter(0x0)");
    assert_eq!(FilterSet(0).text(), "FilterSet([])");
    assert_eq!(FilterSet(1).text(), "FilterSet([READ])");
    assert_eq!(FilterSet(4).text(), "FilterSet([WRITE])");
    assert_eq!(FilterSet(5).text(), "FilterSet([READ, WRITE])");
    assert_eq!(FilterSet(0x2015).text(), "FilterSet([READ, WRITE, 0x2010])");
    assert_eq!(FilterSet(0xdeadbeea).text(), "FilterSet([0xdeadbeea])");
    assert_eq!(FilterSet(0x14).text(), "FilterSet([WRITE, 0x10])");
}

#[test]
fn filter_sets_are_walked_in_order() {
    assert_eq!(FilterSet(5).iter(), vec![READ, WRITE]);
    assert_eq!(FilterSet(0x18).iter(), vec![]);
    assert_eq!(FilterSet(0x1c).iter(), vec![WRITE]);
}

#[test]
fn filter_collections() {
    let made: Result<FilterCollection<u32>, ()> = FilterCollection::try_new(|filter: Filter| Ok(filter.0 + 1));
    let mut made = made.unwrap();
    assert_eq!((made.read, made.write), (2, 5));
    assert_eq!(made.get(READ), Some(&2));
    assert_eq!(made.get(Filter(2)), None);
    *made.index_mut(WRITE) = 9;
    assert_eq!(*made.index(WRITE), 9);
    let mut iter = made.iter();
    assert_eq!(iter.next(), Some((READ, &2)));
    assert_eq!(iter.next(), Some((WRITE, &9)));
    assert_eq!(iter.next(), None);
    assert_eq!(iter.next(), None);
    let failed: Result<FilterCollection<u32>, Filter> =
        FilterCollection::try_new(|filter: Filter| if filter == READ { Ok(1) } else { Err(filter) });
    assert_eq!(failed.err(), Some(WRITE));
}

#[test]
fn constants_agree_with_the_system() {
    assert_eq!(EPOLLIN, libc::EPOLLIN as u32);
    assert_eq!(EPOLLOUT, libc::EPOLLOUT as u32);
    assert_eq!(EPOLLET, libc::EPOLLET as u32);
    assert_eq!(EPOLLONESHOT, libc::EPOLLONESHOT as u32);
}

#[test]
fn classes_of_a_descriptor() {
    assert_eq!(unix::Filter::Read.epoll(), READ);
    assert_eq!(unix::Filter::Write.epoll(), WRITE);
    assert_eq!(unix::Filter::Read.kqueue().0, -1);
    assert_eq!(unix::Filter::Write.kqueue().0, -2);
}

#[test]
fn a_poll_subscribes_where_it_has_to_wait() {
    let mut holder = Registration::new(3);
    let mut state = RegistrationState::new();
    assert_eq!(holder.clear_ready(READ, &mut state, 1, true), Ok(ClearStep::Rearm(1)));
    assert_eq!(holder.rearmed(READ, 1, 1, 0, os(0, ErrorKind::Other)), Ok(()));
    assert_eq!(holder.poll_ready(READ, &mut state, 2, true), Poll::Pending);
    assert_eq!(holder.subscription(READ), Some((1, 1)));
    assert_eq!(holder.poll_ready(READ, &mut state, 3, false), Poll::Pending);
    assert_eq!(holder.subscription(READ), Some((1, 3)));
    assert_eq!(state.deliver(), vec![1, 3]);
    assert_eq!(holder.poll_ready(READ, &mut state, 4, true), Poll::Ready(Ok(())));
    assert_eq!(holder.subscription(READ), None);
    // The slot of an earlier round does not count
    assert_eq!(state.clear(), 2);
    assert_eq!(holder.poll_ready(READ, &mut state, 5, true), Poll::Pending);
    assert_eq!(holder.subscription(READ), Some((3, 5)));
}

#[test]
fn a_delivery_can_be_divided() {
    let mut state = RegistrationState::new();
    state.clear();
    state.subscribe(1);
    state.subscribe(2);
    state.advance();
    assert_eq!(state.sequence(), 2);
    assert_eq!(state.pop(), Some(1));
    state.subscribe(3);
    assert_eq!(state.pop(), Some(2));
    assert_eq!(state.pop(), Some(3));
    assert_eq!(state.pop(), None);
}
