use compio::error::{Error, ErrorKind};
use compio::poll::Poll;
use compio::queue::iocp::{
    notification_modes, turn_completions, turn_wait, Completion, Dispatch, Operation, OperationSource, Overlapped,
    RegisterStep, Release, TokenKind, ERROR_IO_INCOMPLETE, ERROR_IO_PENDING, ERROR_NOT_FOUND, STATUS_PENDING, WAIT_TIMEOUT,
};
use compio::queue::armed::Armed;
use compio::queue::wait::WaitTime;
use compio::waker::WakerSlot;

fn os(code: i32) -> Error {
    Error::Os { code, kind: ErrorKind::Other }
}

fn source() -> OperationSource {
    register(Ok(()), Ok(())).unwrap()
}

/// Registers a handle with answers of the system.
fn register(modes_set: Result<(), Error>, attached: Result<(), Error>) -> Result<OperationSource, Error> {
    let step = OperationSource::register_handle_raw(77);
    assert!(matches!(step, RegisterStep::SetModes { handle: 77, modes: 3 }));
    let step = match step.next(modes_set) {
        RegisterStep::Over(result) => return result,
        step => step,
    };
    assert!(matches!(step, RegisterStep::Attach { handle: 77 }));
    match step.next(attached) {
        RegisterStep::Over(result) => result,
        step => panic!("unexpected step {:?}", step),
    }
}

#[test]
fn operation_is_send() {
    fn is_send<T: Send>() {}
    is_send::<Operation>();
}

#[test]
fn operation_source_is_send_and_sync() {
    fn is_send_and_sync<T: Send + Sync>() {}
    is_send_and_sync::<OperationSource>();
}

#[test]
fn handles_are_registered() {
    assert_eq!(notification_modes(), 3);
    let made = register(Ok(()), Ok(())).unwrap();
    assert_eq!((made.handle, made.avail_overlapped), (77, None));
    assert_eq!(register(Err(os(5)), Ok(())).err(), Some(os(5)));
    assert_eq!(register(Ok(()), Err(os(6))).err(), Some(os(6)));
}

#[test]
fn completions_are_dispatched() {
    let completions = vec![
        Completion { kind: TokenKind::OperationSource, key: 1, overlapped: 2 },
        Completion { kind: TokenKind::UserEvent, key: 3, overlapped: 42 },
    ];
    assert_eq!(
        turn_completions(Ok(completions), false),
        Ok((2, vec![Dispatch::Wake { overlapped: 2 }, Dispatch::RunHandler { token: 3, value: 42 }]))
    );
    assert_eq!(turn_completions(Err(os(WAIT_TIMEOUT)), true), Ok((0, vec![])));
    assert_eq!(turn_completions(Err(os(WAIT_TIMEOUT)), false), Err(os(258)));
    assert_eq!(turn_completions(Err(os(6)), true), Err(os(6)));
}

#[test]
fn waits_of_a_completion_port() {
    let wait = turn_wait(Some(WaitTime { secs: 2, nanos: 3_999_999 }), Some(100));
    assert_eq!((wait.capacity, wait.timeout), (64, 2003));
    let wait = turn_wait(None, Some(1));
    assert_eq!((wait.capacity, wait.timeout), (1, 0xffff_ffff));
    let wait = turn_wait(Some(WaitTime { secs: 4_294_968, nanos: 0 }), None);
    assert_eq!(wait.timeout, 704);
}

#[test]
fn an_operation_starts_only_where_it_is_pending() {
    let mut source = source();
    let mut operation = None;
    let mut structure = Overlapped::new(10);
    let result = source.start_operation(&mut operation, &mut structure, false, 10, 1, |overlapped: &Overlapped| {
        assert_eq!(overlapped.waker.waker(), Some(1));
        Ok(overlapped.id + 1)
    });
    assert_eq!(result, Poll::Ready(Ok(11)));
    assert!(operation.is_none());
    let result: Poll<Result<usize, Error>> =
        source.start_operation(&mut operation, &mut structure, false, 10, 2, |_: &Overlapped| Err(os(5)));
    assert_eq!(result, Poll::Ready(Err(os(5))));
    assert!(operation.is_none());
    let result: Poll<Result<usize, Error>> =
        source.start_operation(&mut operation, &mut structure, false, 10, 3, |_: &Overlapped| {
            Err(os(ERROR_IO_PENDING))
        });
    assert_eq!(result, Poll::Pending);
    assert_eq!(structure.waker.waker(), Some(3));
    let operation = operation.unwrap();
    assert_eq!((operation.overlapped, operation.source), (Some(10), 77));
}

#[test]
fn an_operation_is_polled_to_completion() {
    let mut source = source();
    let mut this = None;
    let mut structure = Overlapped::new(10);
    let pending = |_: &Overlapped| Err(os(ERROR_IO_PENDING));
    let unread = |_: &Overlapped| panic!("no operation is in progress");
    let unasked = |_: usize| panic!("the operation is pending");
    assert_eq!(Operation::current_overlapped(&this, &source, false, 10), 10);
    let start =
        Operation::start_or_poll(&mut this, &mut source, &mut structure, false, 10, 1, pending, unread, unasked);
    assert_eq!(start, Poll::Pending);
    assert_eq!(structure.waker.waker(), Some(1));
    let mut poll = |waker: usize, state: u32, answer: Result<u32, Error>, source: &mut OperationSource| {
        assert_eq!(Operation::current_overlapped(&this, source, false, 11), 10);
        let polled = Operation::start_or_poll(
            &mut this,
            source,
            &mut structure,
            false,
            11,
            waker,
            pending,
            // The waker is in place when the state is read.
            |overlapped: &Overlapped| if overlapped.waker.waker() == Some(waker) { state } else { 0xdead },
            |overlapped: usize| if overlapped == 10 { answer } else { Err(os(1)) },
        );
        assert_eq!(structure.waker.waker(), Some(waker));
        (polled, this.as_ref().unwrap().overlapped)
    };
    assert_eq!(poll(2, STATUS_PENDING, Err(os(1)), &mut source), (Poll::Pending, Some(10)));
    assert_eq!(poll(3, 0, Err(os(ERROR_IO_INCOMPLETE)), &mut source), (Poll::Pending, Some(10)));
    assert_eq!(poll(4, 0, Err(os(64)), &mut source), (Poll::Ready(Err(os(64))), Some(10)));
    assert_eq!(source.avail_overlapped, None);
    assert_eq!(poll(5, 0, Ok(12), &mut source), (Poll::Ready(Ok(12)), None));
    assert_eq!(source.avail_overlapped, Some(10));
    assert_eq!(source.another().avail_overlapped, None);
}

#[test]
fn an_overlapped_structure_is_reused_only_where_it_is_free() {
    let mut source = source();
    source.avail_overlapped = Some(10);
    let mut operation = None;
    for (unique, expected) in [(true, 10), (false, 11)] {
        source.avail_overlapped = Some(10);
        assert_eq!(source.next_overlapped(unique, 11), expected);
        let mut structure = Overlapped::new(expected);
        let result =
            source.start_operation(&mut operation, &mut structure, unique, 11, 0, |overlapped: &Overlapped| {
                Ok(overlapped.id)
            });
        assert_eq!(result, Poll::Ready(Ok(expected)));
        assert_eq!(source.avail_overlapped, None);
    }
    assert_eq!(source.next_overlapped(true, 11), 11);
}

#[test]
fn giving_up_an_operation() {
    let give_up = |overlapped: Option<usize>, answer: Result<(), Error>| {
        let mut structure = Overlapped::new(3);
        structure.waker.register(9);
        let mut operation = Operation { overlapped, source: 77 };
        let release = operation.cancel(&mut structure, |id: usize| if id == 3 { answer } else { Err(os(1)) });
        assert_eq!(operation.overlapped, None);
        (release, structure.waker.waker())
    };
    assert_eq!(give_up(None, Ok(())), (Release::Nothing, Some(9)));
    assert_eq!(give_up(Some(3), Ok(())), (Release::Drop(3), Some(9)));
    assert_eq!(give_up(Some(3), Err(os(ERROR_NOT_FOUND))), (Release::Drop(3), Some(9)));
    assert_eq!(give_up(Some(3), Err(os(5))), (Release::Leak(3), None));
}

#[test]
fn the_latest_waker_is_woken_once() {
    let mut slot = WakerSlot::new();
    assert_eq!(slot.wake(), None);
    slot.register(1);
    slot.register(2);
    assert_eq!(slot.waker(), Some(2));
    assert_eq!(slot.wake(), Some(2));
    assert_eq!(slot.wake(), None);
    slot.register(3);
    slot.forget();
    assert_eq!(slot.wake(), None);
}

#[test]
fn pending_events_keep_what_they_are_for() {
    let mut armed = Armed::new();
    let handler = std::sync::Arc::new(5);
    let first = armed.arm(handler.clone()).unwrap();
    let second = armed.arm(std::sync::Arc::new(6)).unwrap();
    assert_ne!(first, second);
    drop(handler);
    assert_eq!(armed.disarm(second).map(|token| *token), Some(6));
    assert_eq!(armed.get(first).map(|token| **token), Some(5));
    assert_eq!(armed.disarm(first).map(|token| *token), Some(5));
    assert!(armed.get(first).is_none());
    assert!(armed.disarm(first).is_none());
    assert_ne!(armed.arm(std::sync::Arc::new(7)), Some(first));
}
