use compio::error::{Error, ErrorKind};
use compio::poll::Poll;
use compio::queue::unix::Filter;
use compio::socket::attempt::{Attempt, Step, Transfer, PARTIAL_MESSAGE};
use compio::socket::control::{cmsg_align, cmsg_data_offset, cmsg_len, cmsg_space};
use compio::socket::flags::{FlagStep, SetNonblockAndCloexec, FD_CLOEXEC};
use compio::socket::setup::{Open, OpenOrder, OpenStep, PairStep, SocketType};

fn os(code: i32, kind: ErrorKind) -> Error {
    Error::Os { code, kind }
}

fn would_block() -> Error {
    os(11, ErrorKind::WouldBlock)
}

fn interrupted() -> Error {
    os(4, ErrorKind::Interrupted)
}

/// An attempt whose socket is ready and whose system call has returned.
fn called(transfer: Transfer, returned: isize, error: Error) -> Attempt {
    let mut attempt = Attempt::new(transfer);
    assert_eq!(attempt.next_step(), Ok(Step::PollReady(transfer.filter())));
    attempt.ready_polled(true);
    assert_eq!(attempt.next_step(), Ok(Step::Call));
    attempt.called(returned, error);
    attempt
}

#[test]
fn stream_simple_send_recv() {
    let message = b"Hello World!";
    let write = called(Transfer::Write, message.len() as isize, would_block());
    assert_eq!(write.next_step(), Err(Poll::Ready(Ok(12))));
    // The reader comes too early, and is awakened
    let mut read = called(Transfer::Read, -1, would_block());
    assert_eq!(read.next_step(), Ok(Step::ClearReady(Filter::Read)));
    read.cleared(Ok(()));
    assert_eq!(read.next_step(), Err(Poll::Pending));
    let read = called(Transfer::Read, message.len() as isize, would_block());
    assert_eq!(read.next_step(), Err(Poll::Ready(Ok(12))));
}

#[test]
fn stream_recv_cancel() {
    let mut read = called(Transfer::Read, -1, would_block());
    read.cleared(Ok(()));
    assert_eq!(read.next_step(), Err(Poll::Pending));
    let mut read = Attempt::new(Transfer::Read);
    read.ready_polled(false);
    assert_eq!(read.next_step(), Err(Poll::Pending));
}

#[test]
fn accept_cancel() {
    let mut accept = called(Transfer::Accept, -1, would_block());
    assert_eq!(accept.next_step(), Ok(Step::ClearReady(Filter::Read)));
    accept.cleared(Ok(()));
    assert_eq!(accept.next_step(), Err(Poll::Pending));
}

#[test]
fn a_connection_is_taken_in() {
    let accept = called(Transfer::Accept, 9, would_block());
    assert_eq!(accept.next_step(), Err(Poll::Ready(Ok(9))));
    let refused = os(24, ErrorKind::Other);
    assert_eq!(called(Transfer::Accept, -1, refused).next_step(), Err(Poll::Ready(Err(refused))));
}

#[test]
fn only_reading_is_repeated_where_it_was_interrupted() {
    let mut read = called(Transfer::Read, -1, interrupted());
    assert_eq!(read.next_step(), Ok(Step::Call));
    read.called(3, interrupted());
    assert_eq!(read.next_step(), Err(Poll::Ready(Ok(3))));
    let write = called(Transfer::Write, -1, interrupted());
    assert_eq!(write.next_step(), Err(Poll::Ready(Ok(usize::MAX))));
    for transfer in [Transfer::Recv, Transfer::Send { length: 2 }, Transfer::Accept] {
        let attempt = called(transfer, -1, interrupted());
        assert_eq!(attempt.next_step(), Err(Poll::Ready(Err(interrupted()))));
    }
}

#[test]
fn a_message_is_sent_whole() {
    let send = Transfer::Send { length: 5 };
    assert_eq!(called(send, 5, would_block()).next_step(), Err(Poll::Ready(Ok(5))));
    let partial = Error::Custom { kind: ErrorKind::Other, message: PARTIAL_MESSAGE };
    assert_eq!(called(send, 4, would_block()).next_step(), Err(Poll::Ready(Err(partial))));
    assert_eq!(PARTIAL_MESSAGE, "entire message was not sent");
    assert_eq!(called(send, -1, would_block()).next_step(), Ok(Step::ClearReady(Filter::Write)));
    let broken = os(32, ErrorKind::BrokenPipe);
    assert_eq!(called(send, -1, broken).next_step(), Err(Poll::Ready(Err(broken))));
}

#[test]
fn a_registration_that_cannot_take_it_in_fails_the_attempt() {
    let broken = os(32, ErrorKind::BrokenPipe);
    let mut recv = called(Transfer::Recv, -1, would_block());
    recv.cleared(Err(broken));
    assert_eq!(recv.next_step(), Err(Poll::Ready(Err(broken))));
}

#[test]
fn descriptors_are_made_nonblocking() {
    let error = os(9, ErrorKind::Other);
    let mut set = SetNonblockAndCloexec::new(libc::O_NONBLOCK);
    assert_eq!(set.next_step(), Some(FlagStep::GetDescriptorFlags));
    assert_eq!(set.step_done(0x10, error), Ok(()));
    assert_eq!(set.next_step(), Some(FlagStep::SetDescriptorFlags(0x11)));
    assert_eq!(set.step_done(0, error), Ok(()));
    assert_eq!(set.next_step(), Some(FlagStep::GetStatusFlags));
    assert_eq!(set.step_done(libc::O_RDWR, error), Ok(()));
    assert_eq!(set.next_step(), Some(FlagStep::SetStatusFlags(libc::O_RDWR | libc::O_NONBLOCK)));
    assert_eq!(set.step_done(-1, error), Err(error));
    assert_eq!(set.step_done(0, error), Ok(()));
    assert_eq!(set.next_step(), None);
    assert_eq!(FD_CLOEXEC, libc::FD_CLOEXEC);
}

#[test]
fn flags_that_were_set_stay_set() {
    let mut set = SetNonblockAndCloexec::new(0x800);
    let error = os(9, ErrorKind::Other);
    assert_eq!(set.step_done(-2, error), Ok(()));
    assert_eq!(set.next_step(), Some(FlagStep::SetDescriptorFlags(-1)));
}

#[test]
fn sizes_of_control_messages() {
    assert_eq!(cmsg_align(0), 0);
    assert_eq!(cmsg_align(1), 8);
    assert_eq!(cmsg_align(8), 8);
    assert_eq!(cmsg_align(9), 16);
    assert_eq!(cmsg_len(12, 0), 16);
    assert_eq!(cmsg_len(16, 5), 21);
    assert_eq!(cmsg_space(16, 5), 24);
    assert_eq!(cmsg_space(12, 0), 16);
    assert_eq!(cmsg_data_offset(12), 16);
}

#[test]
fn create_stream_pair() {
    let error = os(24, ErrorKind::Other);
    assert_eq!(PairStep::created(-1, (0, 0), error), PairStep::Over(Err(error)));
    let first = PairStep::created(0, (5, 6), error);
    assert_eq!(first, PairStep::SetFirstFlags(5, 6));
    assert_eq!(first.flags_set(Err(error)), PairStep::Over(Err(error)));
    let second = first.flags_set(Ok(()));
    assert_eq!(second, PairStep::SetSecondFlags(5, 6));
    assert_eq!(second.flags_set(Ok(())), PairStep::Over(Ok((5, 6))));
    assert_ne!(PairStep::Create(SocketType::Stream), PairStep::Create(SocketType::SeqPacket));
}

#[test]
fn sockets_are_taken_over() {
    let error = os(17, ErrorKind::Other);
    let mut open = Open::new(OpenOrder::RegisterFirst);
    assert_eq!(open.step, OpenStep::Register);
    open.step_done(Ok(()));
    assert_eq!(open.step, OpenStep::SetFlags);
    open.step_done(Ok(()));
    assert_eq!(open.step, OpenStep::Over(Ok(())));
    let mut open = Open::new(OpenOrder::FlagsFirst);
    assert_eq!(open.step, OpenStep::SetFlags);
    open.step_done(Ok(()));
    assert_eq!(open.step, OpenStep::Register);
    open.step_done(Err(error));
    assert_eq!(open.step, OpenStep::Over(Err(error)));
}
