use compio::endian::{append_le, read_le};
use compio::error::{Error, ErrorKind};
use compio::ipc::mach::channel::{acquire_buffer, Channel, ChannelAnswer, ChannelStep, PreChannel, Received};
use compio::ipc::mach::frame::{
    decode, encode_length, encode_padding, BUFFER_TOO_SMALL, LENGTH_MISMATCH, TOO_SHORT,
};
use compio::ipc::mach::message::{PortMsg, PortMsgBuffer};
use compio::ipc::mach::port::{
    mach_port_type, right_released, Port, RecvArguments, SendArguments, KERN_INVALID_RIGHT, KERN_SUCCESS,
    MACH_PORT_RIGHT_RECEIVE, MACH_PORT_RIGHT_SEND, WRONG_RIGHT,
};
use compio::queue::kqueue::registered::{Registered, PORT_REGISTERED};

fn custom(kind: ErrorKind, message: &'static str) -> Error {
    Error::Custom { kind, message }
}

fn pair() -> (PreChannel, PreChannel) {
    let mut next = 0x100;
    let made = make(
        || {
            next += 1;
            Ok(next)
        },
        |port: u32| Ok((port + 0x1000, 17)),
    );
    match made {
        ChannelStep::Over(left, right) => (left, right),
        other => panic!("unexpected step {:?}", other),
    }
}

/// Makes a channel with answers of the system.
fn make(
    mut allocate: impl FnMut() -> Result<u32, Error>,
    extract: impl Fn(u32) -> Result<(u32, u32), Error>,
) -> ChannelStep {
    let mut step = PreChannel::pair();
    loop {
        let answer = match &step {
            ChannelStep::AllocateFirst => ChannelAnswer::Allocated(allocate()),
            ChannelStep::AllocateSecond { .. } => ChannelAnswer::Allocated(allocate()),
            ChannelStep::ExtractFirst { first, .. } => ChannelAnswer::Extracted(extract(first.port)),
            ChannelStep::ExtractSecond { second, .. } => ChannelAnswer::Extracted(extract(second.port)),
            _ => return step,
        };
        step = step.next(answer);
    }
}

fn channels() -> (Channel, Channel) {
    let (left, right) = pair();
    let mut registered = Registered::new();
    (left.register(&mut registered).unwrap(), right.register(&mut registered).unwrap())
}

/// Sends a message and returns the bytes that arrive, with a trailer behind them.
fn send(channel: &mut Channel, message: &[u8]) -> Vec<u8> {
    channel.compose(message);
    let buffer = channel.msg_buffer.as_mut().unwrap();
    let arguments = channel.tx.send(buffer.msg_mut());
    let mut bytes = buffer.msg().bytes().to_vec();
    assert_eq!(arguments.send_size as usize, bytes.len());
    assert_eq!(Port::sent(buffer.msg_mut(), Ok(())), Ok(()));
    bytes.extend_from_slice(&[0, 0, 0, 0, 8, 0, 0, 0]);
    bytes
}

fn recv(channel: &mut Channel, bytes: Vec<u8>) -> Vec<u8> {
    let mut buffer = vec![0u8; 64];
    match channel.received(Ok(bytes), &mut buffer) {
        Received::Over(Ok(length)) => {
            assert!(buffer[length..].iter().all(|&byte| byte == 0));
            buffer.truncate(length);
            buffer
        }
        other => panic!("unexpected result {:?}", other),
    }
}

#[test]
fn channel_simple_send_recv() {
    let (mut a, mut b) = channels();
    let bytes = send(&mut b, b"Hello World!");
    assert_eq!(recv(&mut a, bytes), b"Hello World!");
}

#[test]
fn channel_boundary_send_recv() {
    let (mut a, mut b) = channels();
    let first = send(&mut b, b"Hello World!!");
    let second = send(&mut b, b":)");
    assert_eq!(recv(&mut a, first), b"Hello World!!");
    assert_eq!(recv(&mut a, second), b":)");
}

#[test]
fn channel_recv_cancel() {
    let (mut a, _b) = channels();
    let mut buffer = [7u8; 4];
    let timed_out = Error::Os { code: 60, kind: ErrorKind::TimedOut };
    assert_eq!(a.received(Err(timed_out), &mut buffer), Received::ClearReady);
    let failed = Error::Os { code: 5, kind: ErrorKind::Other };
    assert_eq!(a.received(Err(failed), &mut buffer), Received::Over(Err(failed)));
    assert_eq!(buffer, [7; 4]);
    assert_eq!(a.msg_buffer.unwrap().msg().size(), 28);
}

#[test]
fn every_length_travels() {
    let (mut a, mut b) = channels();
    for length in 0..40u8 {
        let message: Vec<u8> = (0..length).map(|byte| byte + 1).collect();
        let bytes = send(&mut b, &message);
        assert_eq!((bytes.len() - 8) % 4, 0);
        assert_eq!(recv(&mut a, bytes), message);
    }
}

#[test]
fn a_composed_message() {
    let (mut a, _b) = channels();
    a.compose(b"hey");
    let buffer = a.msg_buffer.as_ref().unwrap();
    let mut expected = vec![19, 0, 0, 0, 40, 0, 0, 0];
    expected.extend_from_slice(&[0; 20]);
    expected.extend_from_slice(&[3, 0, 0, 0, 0, 0, 0, 0, b'h', b'e', b'y', 0]);
    assert_eq!(buffer.msg().bytes(), &expected[..]);
    assert_eq!(buffer.msg().inline_data(), &expected[28..]);
    assert_eq!(
        buffer.msg().text(),
        "PortMsg { header: { complex: false, size: 40 } inline_data: [3, 0, 0, 0, 0, 0, 0, 0, 104, 101, 121, 0]}"
    );
}

#[test]
fn data_that_is_refused() {
    let mut dest = [9u8; 4];
    let short = custom(ErrorKind::Other, TOO_SHORT);
    assert_eq!(decode(&[1, 0, 0, 0, 0, 0, 0], &mut dest), Err(short));
    let mismatch = custom(ErrorKind::Other, LENGTH_MISMATCH);
    assert_eq!(decode(&[2, 0, 0, 0, 0, 0, 0, 0, 1], &mut dest), Err(mismatch));
    assert_eq!(decode(&[255; 16], &mut dest), Err(mismatch));
    let small = custom(ErrorKind::Other, BUFFER_TOO_SMALL);
    assert_eq!(decode(&[5, 0, 0, 0, 0, 0, 0, 0, 1, 2, 3, 4, 5], &mut dest), Err(small));
    assert_eq!(dest, [9; 4]);
    assert_eq!(decode(&[2, 0, 0, 0, 0, 0, 0, 0, 1, 2, 3], &mut dest), Ok(2));
    assert_eq!(dest, [1, 2, 9, 9]);
    assert_eq!(TOO_SHORT, "inline data in mach message too short");
    assert_eq!(LENGTH_MISMATCH, "inline data in mach message does not match declared length");
    assert_eq!(BUFFER_TOO_SMALL, "buffer too small for incomming message");
}

#[test]
fn lengths_and_padding() {
    assert_eq!(encode_length(0x0102), vec![2, 1, 0, 0, 0, 0, 0, 0]);
    assert_eq!(encode_padding(8), Vec::<u8>::new());
    assert_eq!(encode_padding(9), vec![0, 0, 0]);
    assert_eq!(encode_padding(10), vec![0, 0]);
    assert_eq!(encode_padding(11), vec![0]);
}

#[test]
fn there_is_room_for_what_fits_the_buffer() {
    let (mut a, mut b) = channels();
    assert_eq!(a.prepare_receive(0), 44);
    assert_eq!(a.prepare_receive(10), 56);
    assert_eq!(a.prepare_receive(12), 56);
    assert_eq!(a.prepare_receive(3), 56);
    for length in 0..40u8 {
        let (mut a, _) = channels();
        let capacity = a.prepare_receive(length as usize);
        assert_eq!(a.msg_buffer.as_ref().unwrap().msg().size(), 28);
        for shorter in 0..=length {
            assert!(send(&mut b, &vec![1; shorter as usize]).len() <= capacity);
        }
        assert_eq!(send(&mut b, &vec![1; length as usize]).len(), capacity);
    }
}

#[test]
fn messages_grow_and_are_reset() {
    let mut buffer = PortMsgBuffer::new();
    assert_eq!(buffer.msg().size(), 28);
    assert!(!buffer.msg().complex());
    assert_eq!(buffer.msg().inline_data(), &[] as &[u8]);
    buffer.reserve_inline(100);
    buffer.extend_inline_data(&[1, 2]);
    buffer.extend_inline_data(&[3]);
    assert_eq!(buffer.msg().size(), 31);
    assert_eq!(buffer.msg().inline_data(), &[1, 2, 3]);
    buffer.msg_mut().set_remote_port(0x0a0b_0c0d);
    assert_eq!(buffer.msg().remote_port(), 0x0a0b_0c0d);
    assert_eq!(buffer.msg().bytes()[8..12], [0x0d, 0x0c, 0x0b, 0x0a]);
    assert_eq!(buffer.msg().inline_data(), &[1, 2, 3]);
    buffer.reset();
    assert_eq!(buffer.msg().bytes(), PortMsgBuffer::new().msg().bytes());
    let mut kept = Some(buffer);
    acquire_buffer(&mut kept).extend_inline_data(&[4; 200]);
    assert_eq!(kept.as_ref().unwrap().msg().inline_data(), &[4; 200]);
    let acquired = acquire_buffer(&mut kept);
    assert_eq!(acquired.msg().inline_data(), &[] as &[u8]);
    assert!(!acquired.msg().complex());
    acquired.extend_inline_data(&[5]);
    assert_eq!(kept.as_ref().unwrap().msg().inline_data(), &[5]);
    assert_eq!(kept.as_ref().unwrap().msg().capacity(), 228);
    let mut none = None;
    acquire_buffer(&mut none).extend_inline_data(&[6]);
    assert_eq!(none.unwrap().msg().inline_data(), &[6]);
}

#[test]
fn room_grows_and_stays() {
    let mut buffer = PortMsgBuffer::new();
    assert_eq!(buffer.msg().capacity(), 36);
    buffer.reserve_inline(8);
    assert_eq!(buffer.msg().capacity(), 36);
    buffer.reserve_inline(100);
    assert_eq!(buffer.msg().capacity(), 128);
    assert_eq!(buffer.msg().bytes(), PortMsgBuffer::new().msg().bytes());
    buffer.reserve_inline(50);
    assert_eq!(buffer.msg().capacity(), 128);
    buffer.extend_inline_data(&[1; 90]);
    assert_eq!(buffer.msg().capacity(), 128);
    buffer.extend_inline_data(&[2; 20]);
    assert_eq!(buffer.msg().size(), 138);
    assert_eq!(buffer.msg().capacity(), 138);
    buffer.reset();
    assert_eq!(buffer.msg().capacity(), 138);
    let bytes = buffer.msg().bytes().to_vec();
    buffer.received(bytes.clone());
    assert_eq!(buffer.msg().capacity(), 138);
    let mut longer = bytes;
    longer.resize(200, 0);
    buffer.received(longer);
    assert_eq!(buffer.msg().size(), 28);
    assert_eq!(buffer.msg().capacity(), 200);
    buffer.msg_mut().set_remote_port(7);
    assert_eq!(buffer.msg().capacity(), 200);
    assert_eq!(acquire_buffer(&mut Some(buffer)).msg().capacity(), 200);
    assert_eq!(acquire_buffer(&mut None).msg().capacity(), 36);
}

#[test]
fn received_bytes_are_cut_to_size() {
    let mut bytes = PortMsgBuffer::new().msg().bytes().to_vec();
    bytes[0] = 0x80;
    bytes[3] = 0x80;
    bytes.extend_from_slice(&[1, 2, 3, 4]);
    let mut buffer = PortMsgBuffer::new();
    buffer.received(bytes);
    assert_eq!(buffer.msg().size(), 28);
    assert!(buffer.msg().complex());
    let msg: &PortMsg = buffer.msg();
    assert_eq!(msg.bytes().len(), 28);
}

#[test]
fn ends_of_a_channel_are_crossed() {
    let (left, right) = pair();
    let (sends, receives) = (Port { port: 0x1101, has_receive: false, has_send: true }, Port {
        port: 0x101,
        has_receive: true,
        has_send: false,
    });
    assert_eq!(left.tx, sends);
    assert_eq!(right.rx, receives);
    assert_eq!((right.tx.port, left.rx.port), (0x1102, 0x102));
    let failed = Error::Os { code: 3, kind: ErrorKind::Other };
    let receiver = |port: u32| Some(Port { port, has_receive: true, has_send: false });
    let sender = |port: u32| Some(Port { port, has_receive: false, has_send: true });
    let failure = |error: Error, made_first: Option<Port>, made_second: Option<Port>, made_sender: Option<Port>| {
        ChannelStep::Failed { error, made_first, made_second, made_sender }
    };
    for allocated in 0..2 {
        let mut made = 0;
        let step = make(
            || {
                if made == allocated {
                    return Err(failed);
                }
                made += 1;
                Ok(made)
            },
            |port: u32| Ok((port, 17)),
        );
        let first = if allocated == 0 { None } else { receiver(1) };
        assert_eq!(step, failure(failed, first, None, None));
    }
    let numbers = || {
        let mut made = 0;
        move || {
            made += 1;
            Ok(made)
        }
    };
    let step = make(numbers(), |_: u32| Err(failed));
    assert_eq!(step, failure(failed, receiver(1), receiver(2), None));
    let wrong = custom(ErrorKind::Other, WRONG_RIGHT);
    let step = make(numbers(), |port: u32| Ok((port + 0x1000, if port == 1 { 17 } else { 18 })));
    assert_eq!(step, failure(wrong, receiver(1), receiver(2), sender(0x1001)));
}

#[test]
fn an_end_is_registered_once() {
    let (left, _right) = pair();
    let mut registered = Registered::new();
    assert!(registered.register_mach_port(left.rx.port).is_ok());
    assert_eq!(left.register(&mut registered).err(), Some(custom(ErrorKind::AddrInUse, PORT_REGISTERED)));
}

#[test]
fn ports_and_rights() {
    let receiver = Port::new(Ok(0x903)).unwrap();
    assert_eq!(receiver.as_raw_port(), 0x903);
    assert_eq!(receiver.rights(), vec![MACH_PORT_RIGHT_RECEIVE]);
    let sender = Port::make_sender(Ok((0x903, 17))).unwrap();
    assert_eq!(sender.rights(), vec![MACH_PORT_RIGHT_SEND]);
    let both = Port { port: 1, has_receive: true, has_send: true };
    assert_eq!(both.rights(), vec![1, 0]);
    assert!(right_released(MACH_PORT_RIGHT_SEND, KERN_SUCCESS));
    assert!(right_released(MACH_PORT_RIGHT_SEND, KERN_INVALID_RIGHT));
    assert!(!right_released(MACH_PORT_RIGHT_RECEIVE, KERN_INVALID_RIGHT));
    assert!(!right_released(MACH_PORT_RIGHT_SEND, 15));
    assert_eq!(mach_port_type(MACH_PORT_RIGHT_SEND), 0x1_0000);
    assert_eq!(mach_port_type(MACH_PORT_RIGHT_RECEIVE), 0x2_0000);
}

#[test]
fn arguments_of_sending_and_receiving() {
    let port = Port { port: 0x903, has_receive: true, has_send: true };
    let mut buffer = PortMsgBuffer::new();
    assert_eq!(
        port.send(buffer.msg_mut()),
        SendArguments { flags: 1, send_size: 28, timeout: 0 }
    );
    assert_eq!(buffer.msg().remote_port(), 0x903);
    let failed = Error::Os { code: 3, kind: ErrorKind::Other };
    assert_eq!(Port::sent(buffer.msg_mut(), Err(failed)), Err(failed));
    assert_eq!(buffer.msg().remote_port(), 0x903);
    assert_eq!(Port::sent(buffer.msg_mut(), Ok(())), Ok(()));
    assert_eq!(buffer.msg().remote_port(), 0);
    assert_eq!(
        port.recv(100, true),
        RecvArguments { flags: 0x106, receive_limit: 100, port: 0x903, timeout: 0 }
    );
    assert_eq!(port.recv(100, false).flags, 0x6);
}

#[test]
fn numbers_as_bytes() {
    let mut bytes = vec![1];
    append_le(&mut bytes, 0x1122_3344_5566_7788, 8);
    append_le(&mut bytes, 0x1122_3344, 2);
    assert_eq!(bytes, vec![1, 0x88, 0x77, 0x66, 0x55, 0x44, 0x33, 0x22, 0x11, 0x44, 0x33]);
    assert_eq!(read_le(&bytes, 1, 8), 0x1122_3344_5566_7788);
    assert_eq!(read_le(&bytes, 1, 4), 0x5566_7788);
    assert_eq!(read_le(&bytes, 9, 2), 0x3344);
    assert_eq!(read_le(&bytes, 11, 0), 0);
}
