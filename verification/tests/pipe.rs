use compio::error::{Error, ErrorKind};
use compio::ipc::pipe::{
    channel_pipe_type, new_pipe_name, pipe_name, stream_pipe_type, PipeAnswer, PipeStep, CONNECTED_UNEXPECTEDLY,
};
use compio::queue::iocp::ERROR_IO_PENDING;

fn os(code: i32) -> Error {
    Error::Os { code, kind: ErrorKind::Other }
}

#[test]
fn names_of_pipes() {
    let name = pipe_name("ab").unwrap();
    let expected: Vec<u16> = "\\\\.\\pipe\\LOCAL\\ab\0".encode_utf16().collect();
    assert_eq!(name, expected);
    let name = pipe_name("\u{1f600}\u{e9}").unwrap();
    assert_eq!(name[15..], [0xd83d, 0xde00, 0xe9, 0]);
    assert_eq!(pipe_name("a\0b"), None);
    assert_eq!(pipe_name("a\0").unwrap(), pipe_name("a").unwrap());
}

#[test]
fn names_of_new_pipes() {
    let name = new_pipe_name();
    assert_eq!(name.len(), 15 + 36 + 1);
    assert_eq!(name[51], 0);
    let text = String::from_utf16(&name[15..51]).unwrap();
    for (at, c) in text.chars().enumerate() {
        match at {
            8 | 13 | 18 | 23 => assert_eq!(c, '-'),
            14 => assert_eq!(c, '4'),
            19 => assert!("89ab".contains(c)),
            _ => assert!("0123456789abcdef".contains(c)),
        }
    }
    assert_ne!(name, new_pipe_name());
}

#[test]
fn create_prestream_pair() {
    let step = PipeStep::raw_pipe_pair(stream_pipe_type());
    assert_eq!(step, PipeStep::Create { open_mode: 0x4008_0003, pipe_mode: 0x8, max_instances: 1 });
    let step = step.next(PipeAnswer::Handle(Ok(11)));
    assert_eq!(step, PipeStep::Connect { server: 11 });
    let step = step.next(PipeAnswer::Connected { returned: 0, last_error: os(ERROR_IO_PENDING) });
    assert_eq!(
        step,
        PipeStep::Open { server: 11, access: 0xc000_0000, disposition: 3, flags: 0x4001_0000 }
    );
    let step = step.next(PipeAnswer::Handle(Ok(12)));
    assert_eq!(step, PipeStep::Finish { server: 11, client: 12, timeout: 1000 });
    let step = step.next(PipeAnswer::Finished(Ok(())));
    assert_eq!(step, PipeStep::Over(Ok((11, 12))));
}

#[test]
fn pairs_of_pipes_that_fail() {
    let first = PipeStep::raw_pipe_pair(channel_pipe_type());
    assert_eq!(first, PipeStep::Create { open_mode: 0x4008_0003, pipe_mode: 0xe, max_instances: 1 });
    assert_eq!(first.next(PipeAnswer::Handle(Err(os(5)))), PipeStep::Over(Err(os(5))));
    let connect = PipeStep::Connect { server: 11 };
    let unexpected = Error::Custom { kind: ErrorKind::Other, message: CONNECTED_UNEXPECTEDLY };
    assert_eq!(
        connect.next(PipeAnswer::Connected { returned: 1, last_error: os(ERROR_IO_PENDING) }),
        PipeStep::Over(Err(unexpected))
    );
    assert_eq!(
        connect.next(PipeAnswer::Connected { returned: 0, last_error: os(535) }),
        PipeStep::Over(Err(os(535)))
    );
    let open = PipeStep::Open { server: 11, access: 0, disposition: 0, flags: 0 };
    assert_eq!(open.next(PipeAnswer::Handle(Err(os(2)))), PipeStep::Over(Err(os(2))));
    let finish = PipeStep::Finish { server: 11, client: 12, timeout: 1000 };
    assert_eq!(finish.next(PipeAnswer::Finished(Err(os(258)))), PipeStep::Over(Err(os(258))));
}
