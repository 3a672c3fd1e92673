use compio::error::{Error, ErrorKind};
use compio::net::address::sockaddr_len;
use compio::net::connect::{ConnectAnswer, ConnectFuture, ConnectStep};
use compio::net::winsock::{
    accept_ex_id, buffer_length, connect_ex_id, get_winsock_function, OverlappedAnswer, OverlappedFuture,
    OverlappedStep, Purpose, WRONG_POINTER_SIZE,
};
use compio::poll::Poll;
use compio::socket::attempt::{Attempt, Step, Transfer};

const IN_PROGRESS: i32 = libc::EINPROGRESS;

fn os(code: i32) -> Error {
    Error::Os { code, kind: ErrorKind::Other }
}

/// A connection whose socket has been made, set up and registered.
fn connecting(is_ipv4: bool) -> ConnectFuture {
    let mut connect = ConnectFuture::new(is_ipv4, IN_PROGRESS);
    connect.begin_poll();
    assert_eq!(connect.step, ConnectStep::Create { is_ipv4 });
    connect.step_done(ConnectAnswer::Done(Ok(())));
    assert_eq!(connect.step, ConnectStep::SetFlags);
    connect.step_done(ConnectAnswer::Done(Ok(())));
    assert_eq!(connect.step, ConnectStep::Register);
    connect.step_done(ConnectAnswer::Done(Ok(())));
    connect
}

/// A connection that goes on, up to its end.
fn connect_later(is_ipv4: bool, address_length: u32) {
    let mut connect = connecting(is_ipv4);
    assert_eq!(connect.step, ConnectStep::Connect { address_length });
    connect.step_done(ConnectAnswer::Connected { returned: -1, last_error: os(IN_PROGRESS) });
    assert_eq!(connect.step, ConnectStep::ClearReady);
    assert!(!connect.has_socket);
    connect.step_done(ConnectAnswer::Done(Ok(())));
    assert_eq!(connect.step, ConnectStep::Over(Poll::Pending));
    assert!(connect.has_socket);
    connect.begin_poll();
    assert_eq!(connect.step, ConnectStep::PollReady);
    connect.step_done(ConnectAnswer::ReadyPolled(false));
    assert_eq!(connect.step, ConnectStep::Over(Poll::Pending));
    connect.begin_poll();
    connect.step_done(ConnectAnswer::ReadyPolled(true));
    assert_eq!(connect.step, ConnectStep::TakeError);
    connect.step_done(ConnectAnswer::ErrorTaken(Ok(None)));
    assert_eq!(connect.step, ConnectStep::Over(Poll::Ready(Ok(()))));
    assert!(!connect.has_socket);
}

/// Takes a transfer through one poll: `call` makes the system call and returns its count, or none where
/// it would block.
fn transferred(transfer: Transfer, mut call: impl FnMut() -> Option<usize>) -> Poll<Result<usize, Error>> {
    let would_block = Error::Os { code: libc::EAGAIN, kind: ErrorKind::WouldBlock };
    let mut attempt = Attempt::new(transfer);
    loop {
        match attempt.next_step() {
            Ok(Step::PollReady(filter)) => {
                assert_eq!(filter, transfer.filter());
                attempt.ready_polled(true);
            }
            Ok(Step::Call) => {
                let returned = call().map_or(-1, |count| count as isize);
                attempt.called(returned, would_block);
            }
            Ok(Step::ClearReady(_)) => attempt.cleared(Ok(())),
            Err(outcome) => return outcome,
        }
    }
}

/// What was written to one end of a connection and not yet read at the other.
#[derive(Default)]
struct Wire(Vec<u8>);

impl Wire {
    fn write(&mut self, bytes: &[u8]) -> Poll<Result<usize, Error>> {
        transferred(Transfer::Write, || {
            self.0.extend_from_slice(bytes);
            Some(bytes.len())
        })
    }

    fn read(&mut self, buffer: &mut [u8]) -> Poll<Result<usize, Error>> {
        transferred(Transfer::Read, || {
            if self.0.is_empty() {
                return None;
            }
            let count = self.0.len().min(buffer.len());
            buffer[..count].copy_from_slice(&self.0[..count]);
            self.0.drain(..count);
            Some(count)
        })
    }
}

/// The client connects and is accepted; what it writes the server writes back.
fn echo(is_ipv4: bool, address_length: u32) {
    connect_later(is_ipv4, address_length);
    assert_eq!(transferred(Transfer::Accept, || Some(7)), Poll::Ready(Ok(7)));
    let (mut to_server, mut to_client) = (Wire::default(), Wire::default());
    let mut buffer = [0u8; 256];
    assert_eq!(to_server.read(&mut buffer), Poll::Pending);
    assert_eq!(to_server.write(b"Hello World!"), Poll::Ready(Ok(12)));
    assert_eq!(to_client.read(&mut buffer), Poll::Pending);
    let received = match to_server.read(&mut buffer) {
        Poll::Ready(Ok(count)) => count,
        other => panic!("unexpected outcome {:?}", other),
    };
    assert_eq!(to_client.write(&buffer[..received]), Poll::Ready(Ok(12)));
    let mut buffer = [0u8; 256];
    let received = match to_client.read(&mut buffer) {
        Poll::Ready(Ok(count)) => count,
        other => panic!("unexpected outcome {:?}", other),
    };
    assert_eq!(b"Hello World!", &buffer[..received]);
}

#[test]
fn connect_echo() {
    echo(true, 16);
}

#[test]
fn connect_echo_ipv6() {
    echo(false, 28);
}

#[test]
fn a_connection_can_be_there_at_once() {
    let mut connect = connecting(true);
    connect.step_done(ConnectAnswer::Connected { returned: 0, last_error: os(0) });
    assert_eq!(connect.step, ConnectStep::Over(Poll::Ready(Ok(()))));
    assert!(!connect.has_socket);
}

#[test]
fn connections_that_fail() {
    for steps in 0..3 {
        let mut connect = ConnectFuture::new(true, IN_PROGRESS);
        connect.begin_poll();
        for _ in 0..steps {
            connect.step_done(ConnectAnswer::Done(Ok(())));
        }
        connect.step_done(ConnectAnswer::Done(Err(os(23))));
        assert_eq!(connect.step, ConnectStep::Over(Poll::Ready(Err(os(23)))));
        assert!(!connect.has_socket);
    }
    let mut connect = connecting(true);
    connect.step_done(ConnectAnswer::Connected { returned: -1, last_error: os(111) });
    assert_eq!(connect.step, ConnectStep::Over(Poll::Ready(Err(os(111)))));
    let mut connect = connecting(true);
    connect.step_done(ConnectAnswer::Connected { returned: -1, last_error: os(IN_PROGRESS) });
    connect.step_done(ConnectAnswer::Done(Err(os(32))));
    assert_eq!(connect.step, ConnectStep::Over(Poll::Ready(Err(os(32)))));
    assert!(!connect.has_socket);
}

#[test]
fn the_error_of_a_socket_is_left_to_the_first_transfer() {
    let waiting = || {
        let mut connect = connecting(true);
        connect.step_done(ConnectAnswer::Connected { returned: -1, last_error: os(IN_PROGRESS) });
        connect.step_done(ConnectAnswer::Done(Ok(())));
        connect.begin_poll();
        connect.step_done(ConnectAnswer::ReadyPolled(true));
        connect
    };
    let mut connect = waiting();
    connect.step_done(ConnectAnswer::ErrorTaken(Ok(Some(os(111)))));
    assert_eq!(connect.step, ConnectStep::Over(Poll::Ready(Ok(()))));
    let mut connect = waiting();
    connect.step_done(ConnectAnswer::ErrorTaken(Err(os(9))));
    assert_eq!(connect.step, ConnectStep::Over(Poll::Ready(Err(os(9)))));
    assert!(connect.has_socket);
}

#[test]
fn accepting_through_an_overlapped_operation() {
    let mut accept = OverlappedFuture::new(Purpose::Accept, true);
    assert_eq!(accept.step, OverlappedStep::Create { is_ipv4: true, bind_any: false });
    accept.step_done(OverlappedAnswer::Done(Ok(())));
    assert_eq!(accept.step, OverlappedStep::Register);
    accept.step_done(OverlappedAnswer::Done(Ok(())));
    assert_eq!(accept.step, OverlappedStep::StartOrPoll);
    assert!(accept.has_socket);
    accept.step_done(OverlappedAnswer::Polled(Poll::Pending));
    assert_eq!(accept.step, OverlappedStep::Over(Poll::Pending));
    assert!(accept.has_socket);
    accept.begin_poll();
    assert_eq!(accept.step, OverlappedStep::StartOrPoll);
    accept.step_done(OverlappedAnswer::Polled(Poll::Ready(Ok(0))));
    assert_eq!(accept.step, OverlappedStep::UpdateContext { option: 0x700b });
    accept.step_done(OverlappedAnswer::Done(Ok(())));
    assert_eq!(accept.step, OverlappedStep::Over(Poll::Ready(Ok(()))));
    assert!(!accept.has_socket);
}

#[test]
fn connecting_through_an_overlapped_operation() {
    let mut connect = OverlappedFuture::new(Purpose::Connect, false);
    connect.begin_poll();
    assert_eq!(connect.step, OverlappedStep::Create { is_ipv4: false, bind_any: true });
    connect.step_done(OverlappedAnswer::Done(Err(os(1))));
    assert_eq!(connect.step, OverlappedStep::Over(Poll::Ready(Err(os(1)))));
    assert!(!connect.has_socket);
    connect.begin_poll();
    connect.step_done(OverlappedAnswer::Done(Ok(())));
    connect.step_done(OverlappedAnswer::Done(Ok(())));
    connect.step_done(OverlappedAnswer::Polled(Poll::Ready(Err(os(1225)))));
    assert_eq!(connect.step, OverlappedStep::Over(Poll::Ready(Err(os(1225)))));
    assert!(connect.has_socket);
    connect.begin_poll();
    connect.step_done(OverlappedAnswer::Polled(Poll::Ready(Ok(0))));
    assert_eq!(connect.step, OverlappedStep::UpdateContext { option: 0x7010 });
    connect.step_done(OverlappedAnswer::Done(Err(os(2))));
    assert_eq!(connect.step, OverlappedStep::Over(Poll::Ready(Err(os(2)))));
    assert!(connect.has_socket);
}

#[test]
fn extension_functions() {
    assert_eq!(get_winsock_function(0, os(1), 8, 8, 0x7fff), Ok(0x7fff));
    assert_eq!(get_winsock_function(-1, os(1), 8, 8, 0x7fff), Err(os(1)));
    let wrong = Error::Custom { kind: ErrorKind::InvalidData, message: WRONG_POINTER_SIZE };
    assert_eq!(get_winsock_function(0, os(1), 4, 8, 0x7fff), Err(wrong));
    assert_eq!(connect_ex_id().data1, 0x25a207b9);
    assert_eq!(connect_ex_id().data4, [0x8e, 0xe9, 0x76, 0xe5, 0x8c, 0x74, 0x06, 0x3e]);
    assert_eq!(accept_ex_id().data2, 0xcbac);
    assert_eq!(accept_ex_id().data4, [0x95, 0xca, 0x00, 0x80, 0x5f, 0x48, 0xa1, 0x92]);
}

#[test]
fn lengths_of_addresses_and_buffers() {
    assert_eq!(sockaddr_len(true), 16);
    assert_eq!(sockaddr_len(false), 28);
    assert_eq!(buffer_length(64), 64);
    assert_eq!(buffer_length(0x1_0000_0003), 3);
}
