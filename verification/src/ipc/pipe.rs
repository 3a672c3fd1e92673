//! Pairs of connected named pipes, for systems whose unnamed pipes cannot overlap operations.
use uuid::Uuid;
use vstd::prelude::*;
use vstd::string::*;
use widestring::U16CString;

use crate::error::{Error, ErrorKind};
use crate::queue::iocp::ERROR_IO_PENDING;
#[allow(unused_imports)]
use crate::queue::iocp::has_code;

verus! {

/// The pipe carries a stream of bytes.
pub const PIPE_TYPE_BYTE: u32 = 0x0;

/// The pipe carries messages.
pub const PIPE_TYPE_MESSAGE: u32 = 0x4;

/// Reading yields bytes.
pub const PIPE_READMODE_BYTE: u32 = 0x0;

/// Reading yields messages.
pub const PIPE_READMODE_MESSAGE: u32 = 0x2;

/// Clients of other machines are turned away.
pub const PIPE_REJECT_REMOTE_CLIENTS: u32 = 0x8;

/// The pipe goes both ways.
pub const PIPE_ACCESS_DUPLEX: u32 = 0x3;

/// Creating fails where there is a pipe of that name.
pub const FILE_FLAG_FIRST_PIPE_INSTANCE: u32 = 0x0008_0000;

/// Operations can overlap.
pub const FILE_FLAG_OVERLAPPED: u32 = 0x4000_0000;

/// The server can tell who the client is, and no more.
pub const SECURITY_IDENTIFICATION: u32 = 0x0001_0000;

/// The right to read.
pub const GENERIC_READ: u32 = 0x8000_0000;

/// The right to write.
pub const GENERIC_WRITE: u32 = 0x4000_0000;

/// Open what exists.
pub const OPEN_EXISTING: u32 = 3;

/// How long the server side waits for the connection to be made, in milliseconds.
pub const CONNECT_TIMEOUT: u32 = 1000;

/// What the names of the pipes begin with.
pub const PIPE_PREFIX: &'static str = "\\\\.\\pipe\\LOCAL\\";

/// The text of the error for a connection that is not ours.
pub const CONNECTED_UNEXPECTEDLY: &'static str = "ConnectNamedPipe returned unexpectedly";

/// Whether a character is a lower-case hexadecimal digit.
pub open spec fn is_hex(c: char) -> bool {
    ('0' <= c && c <= '9') || ('a' <= c && c <= 'f')
}

/// Whether a text is a random identifier: thirty-two hexadecimal digits in groups of eight, four,
/// four, four and twelve, of which the thirteenth and the seventeenth tell that it is random.
pub open spec fn random_id(text: Seq<char>) -> bool {
    &&& text.len() == 36
    &&& forall|at: int|
        0 <= at < 36 ==> if at == 8 || at == 13 || at == 18 || at == 23 {
            #[trigger] text[at] == '-'
        } else {
            is_hex(text[at])
        }
    &&& text[14] == '4'
    &&& text[19] == '8' || text[19] == '9' || text[19] == 'a' || text[19] == 'b'
}

/// Makes a random identifier, with [`Uuid::new_v4`] and the text that [`Uuid`] displays. Nothing is
/// claimed of its random digits, so nothing of two identifiers being different. Where the operating
/// system has no random numbers to give, the call does not return.
#[verifier::external_body]
pub(crate) fn new_random_id() -> (id: String)
    ensures
        random_id(id@),
{
    Uuid::new_v4().to_string()
}

/// A character in UTF-16: one unit, or two for a character beyond the first 65536.
pub open spec fn utf16_char(c: char) -> Seq<u16> {
    let code = c as u32;
    if code < 0x1_0000 {
        seq![code as u16]
    } else {
        seq![
            (0xd800 + (code - 0x1_0000) / 0x400) as u16,
            (0xdc00 + (code - 0x1_0000) % 0x400) as u16,
        ]
    }
}

/// A text in UTF-16.
pub open spec fn utf16(text: Seq<char>) -> Seq<u16>
    decreases text.len(),
{
    if text.len() == 0 {
        Seq::empty()
    } else {
        utf16(text.drop_last()) + utf16_char(text.last())
    }
}

/// Whether units hold no zero, but for the last of them.
pub open spec fn only_ends_in_zero(units: Seq<u16>) -> bool {
    forall|at: int| 0 <= at < units.len() - 1 ==> #[trigger] units[at] != 0
}

/// Units that end in zero: as they are where they do, else with a zero behind them.
pub open spec fn terminated(units: Seq<u16>) -> Seq<u16> {
    if units.len() > 0 && units.last() == 0 {
        units
    } else {
        units.push(0)
    }
}

/// Encodes a text in UTF-16 with a zero at the end, with [`U16CString::from_str`]. It refuses a text
/// with a zero before the end, and does not add a second zero to a text that ends in one.
#[verifier::external_body]
pub(crate) fn wide_text(text: &str) -> (units: Option<Vec<u16>>)
    ensures
        match units {
            Some(units) => only_ends_in_zero(utf16(text@)) && units@ == terminated(utf16(text@)),
            None => !only_ends_in_zero(utf16(text@)),
        },
{
    U16CString::from_str(text).ok().map(|wide| wide.into_vec_with_nul())
}

/// The name of the pipe with an identifier, as the system takes it. There is none for an identifier
/// that holds a zero anywhere but at its end.
pub fn pipe_name(id: &str) -> (name: Option<Vec<u16>>)
    ensures
        match name {
            Some(name) => {
                &&& only_ends_in_zero(utf16(PIPE_PREFIX@ + id@))
                &&& name@ == terminated(utf16(PIPE_PREFIX@ + id@))
            },
            None => !only_ends_in_zero(utf16(PIPE_PREFIX@ + id@)),
        },
{
    let mut text: String = String::from_str(PIPE_PREFIX);
    text.append(id);
    wide_text(text.as_str())
}

proof fn lemma_utf16_of_narrow(text: Seq<char>)
    requires
        forall|at: int| 0 <= at < text.len() ==> 0 < ((#[trigger] text[at]) as u32)
            < 0x1_0000,
    ensures
        utf16(text).len() == text.len(),
        forall|at: int| 0 <= at < text.len() ==> #[trigger] utf16(text)[at] != 0,
    decreases text.len(),
{
    if text.len() > 0 {
        lemma_utf16_of_narrow(text.drop_last());
        assert(text.last() == text[text.len() - 1]);
        let last = utf16_char(text.last());
        assert(last.len() == 1 && last[0] != 0);
        assert forall|at: int| 0 <= at < text.len() implies #[trigger] utf16(text)[at] != 0 by {
            if at < text.len() - 1 {
                assert(utf16(text)[at] == utf16(text.drop_last())[at]);
            } else {
                assert(utf16(text)[at] == last[0]);
            }
        }
    }
}

/// The name for a new pipe, with a random identifier.
pub fn new_pipe_name() -> (name: Vec<u16>)
    ensures
        exists|id: Seq<char>|
            #[trigger] random_id(id) && name@ == utf16(PIPE_PREFIX@ + id).push(0),
{
    let id: String = new_random_id();
    proof {
        reveal_strlit("\\\\.\\pipe\\LOCAL\\");
        let text = PIPE_PREFIX@ + id@;
        assert forall|at: int| 0 <= at < text.len() implies 0 < (
        (#[trigger] text[at]) as u32) < 0x1_0000 by {
            if at >= PIPE_PREFIX@.len() {
                assert(text[at] == id@[at - PIPE_PREFIX@.len()]);
            }
        }
        lemma_utf16_of_narrow(text);
    }
    match pipe_name(id.as_str()) {
        Some(name) => name,
        None => Vec::new(),
    }
}

/// A step of making a pair of connected pipes, or what it came to: the handles of the server and of
/// the client.
#[derive(Clone, Copy, PartialEq, Eq, Debug)]
pub enum PipeStep {
    /// Create the server's pipe, in one instance.
    Create { open_mode: u32, pipe_mode: u32, max_instances: u32 },
    /// Begin to connect the server's pipe.
    Connect { server: usize },
    /// Open the client's end by the same name.
    Open { server: usize, access: u32, disposition: u32, flags: u32 },
    /// Wait until the server's pipe is connected.
    Finish { server: usize, client: usize, timeout: u32 },
    Over(Result<(usize, usize), Error>),
}

/// The answer of the system to a step.
#[derive(Clone, Copy, PartialEq, Eq, Debug)]
pub enum PipeAnswer {
    /// The handle that was created or opened.
    Handle(Result<usize, Error>),
    /// What connecting returned, and the error that it left.
    Connected { returned: i32, last_error: Error },
    /// Whether the connection was made.
    Finished(Result<(), Error>),
}

impl PipeStep {
    /// Whether an answer is one to this step.
    pub open spec fn answered_by(self, answer: PipeAnswer) -> bool {
        match self {
            PipeStep::Create { .. } => answer is Handle,
            PipeStep::Connect { .. } => answer is Connected,
            PipeStep::Open { .. } => answer is Handle,
            PipeStep::Finish { .. } => answer is Finished,
            PipeStep::Over(_) => false,
        }
    }

    /// The step that follows. A connection that is there at once is not ours, since nobody has
    /// opened the client's end yet.
    pub open spec fn after(self, answer: PipeAnswer) -> PipeStep {
        match (self, answer) {
            (PipeStep::Create { .. }, PipeAnswer::Handle(Ok(server))) => PipeStep::Connect {
                server,
            },
            (
                PipeStep::Connect { server },
                PipeAnswer::Connected { returned, last_error },
            ) => if returned != 0 {
                PipeStep::Over(
                    Err(Error::Custom { kind: ErrorKind::Other, message: CONNECTED_UNEXPECTEDLY }),
                )
            } else if has_code(last_error, ERROR_IO_PENDING) {
                PipeStep::Open {
                    server,
                    access: GENERIC_READ | GENERIC_WRITE,
                    disposition: OPEN_EXISTING,
                    flags: SECURITY_IDENTIFICATION | FILE_FLAG_OVERLAPPED,
                }
            } else {
                PipeStep::Over(Err(last_error))
            },
            (PipeStep::Open { server, .. }, PipeAnswer::Handle(Ok(client))) => PipeStep::Finish {
                server,
                client,
                timeout: CONNECT_TIMEOUT,
            },
            (PipeStep::Finish { server, client, .. }, PipeAnswer::Finished(Ok(_))) => PipeStep::Over(
                Ok((server, client)),
            ),
            (_, PipeAnswer::Handle(Err(error))) => PipeStep::Over(Err(error)),
            (_, PipeAnswer::Finished(Err(error))) => PipeStep::Over(Err(error)),
            _ => self,
        }
    }

    /// The first step for a pair of pipes of a type.
    pub fn raw_pipe_pair(pipe_type: u32) -> (step: PipeStep)
        ensures
            step == (PipeStep::Create {
                open_mode: PIPE_ACCESS_DUPLEX | FILE_FLAG_FIRST_PIPE_INSTANCE
                    | FILE_FLAG_OVERLAPPED,
                pipe_mode: pipe_type | PIPE_REJECT_REMOTE_CLIENTS,
                max_instances: 1,
            }),
    {
        PipeStep::Create {
            open_mode: PIPE_ACCESS_DUPLEX | FILE_FLAG_FIRST_PIPE_INSTANCE | FILE_FLAG_OVERLAPPED,
            pipe_mode: pipe_type | PIPE_REJECT_REMOTE_CLIENTS,
            max_instances: 1,
        }
    }

    /// The step that follows the answer.
    pub fn next(self, answer: PipeAnswer) -> (step: PipeStep)
        requires
            self.answered_by(answer),
        ensures
            step == self.after(answer),
    {
        match (self, answer) {
            (PipeStep::Create { .. }, PipeAnswer::Handle(Ok(server))) => PipeStep::Connect {
                server,
            },
            (PipeStep::Connect { server }, PipeAnswer::Connected { returned, last_error }) => {
                if returned != 0 {
                    return PipeStep::Over(
                        Err(
                            Error::Custom {
                                kind: ErrorKind::Other,
                                message: CONNECTED_UNEXPECTEDLY,
                            },
                        ),
                    );
                }
                match last_error.raw_os_error() {
                    Some(ERROR_IO_PENDING) => PipeStep::Open {
                        server,
                        access: GENERIC_READ | GENERIC_WRITE,
                        disposition: OPEN_EXISTING,
                        flags: SECURITY_IDENTIFICATION | FILE_FLAG_OVERLAPPED,
                    },
                    _ => PipeStep::Over(Err(last_error)),
                }
            },
            (PipeStep::Open { server, .. }, PipeAnswer::Handle(Ok(client))) => PipeStep::Finish {
                server,
                client,
                timeout: CONNECT_TIMEOUT,
            },
            (PipeStep::Finish { server, client, .. }, PipeAnswer::Finished(Ok(_))) => PipeStep::Over(
                Ok((server, client)),
            ),
            (_, PipeAnswer::Handle(Err(error))) => PipeStep::Over(Err(error)),
            (_, PipeAnswer::Finished(Err(error))) => PipeStep::Over(Err(error)),
            _ => self,
        }
    }
}

/// The type of the pipes of a stream.
pub fn stream_pipe_type() -> (pipe_type: u32)
    ensures
        pipe_type == PIPE_TYPE_BYTE | PIPE_READMODE_BYTE,
{
    PIPE_TYPE_BYTE | PIPE_READMODE_BYTE
}

/// The type of the pipes of a channel.
pub fn channel_pipe_type() -> (pipe_type: u32)
    ensures
        pipe_type == PIPE_TYPE_MESSAGE | PIPE_READMODE_MESSAGE,
{
    PIPE_TYPE_MESSAGE | PIPE_READMODE_MESSAGE
}

/// The pair consists of the pipe that was created and the end that was opened, once the connection
/// between them has begun before the end was opened and has been made after.
pub proof fn law_pair_is_created_and_opened(first: PipeStep, server: usize, client: usize, pending: Error)
    requires
        first is Create,
        has_code(pending, ERROR_IO_PENDING),
    ensures
        first.after(PipeAnswer::Handle(Ok(server))).after(
            (PipeAnswer::Connected { returned: 0, last_error: pending }),
        ).after(PipeAnswer::Handle(Ok(client))).after(PipeAnswer::Finished(Ok(()))) == PipeStep::Over(
            Ok((server, client)),
        ),
{
}

/// A text in UTF-16 is that of its first part followed by that of the rest.
pub proof fn law_text_is_encoded_in_order(first: Seq<char>, rest: Seq<char>)
    ensures
        utf16(first + rest) == utf16(first) + utf16(rest),
    decreases rest.len(),
{
    if rest.len() == 0 {
        assert(first + rest == first);
        assert(utf16(first) + utf16(rest) == utf16(first));
    } else {
        assert((first + rest).drop_last() == first + rest.drop_last());
        assert((first + rest).last() == rest.last());
        law_text_is_encoded_in_order(first, rest.drop_last());
        assert(utf16(first + rest) == utf16(first) + utf16(rest));
    }
}

/// A character is given back by its units: a single one is its code, and a pair holds the code less
/// 65536 in its low ten bits each, marked as the first and as the second of a pair.
pub proof fn law_units_give_the_character_back(c: char)
    ensures
        utf16(seq![c]) == utf16_char(c),
        (c as u32) < 0x1_0000 ==> utf16_char(c).len() == 1 && utf16_char(c)[0] == c as u32,
        c as u32 >= 0x1_0000 ==> {
            &&& utf16_char(c).len() == 2
            &&& 0xd800 <= utf16_char(c)[0] < 0xdc00
            &&& 0xdc00 <= utf16_char(c)[1] < 0xe000
            &&& 0x1_0000 + (utf16_char(c)[0] - 0xd800) * 0x400 + (utf16_char(c)[1] - 0xdc00)
                == c as u32
        },
{
    assert(seq![c].drop_last() == Seq::<char>::empty());
    assert(utf16(Seq::<char>::empty()) == Seq::<u16>::empty());
    assert(seq![c].last() == c);
    assert(utf16(seq![c]) == utf16_char(c));
}

/// A name ends in a zero, and is otherwise what it was: one is added only where there is none.
pub proof fn law_name_ends_in_one_zero(units: Seq<u16>, at: int)
    ensures
        terminated(units).len() > 0,
        terminated(units).last() == 0,
        0 <= at < units.len() ==> terminated(units)[at] == units[at],
        terminated(units).len() == units.len() <==> units.len() > 0 && units.last() == 0,
        terminated(units).len() <= units.len() + 1,
        only_ends_in_zero(units) && 0 <= at < terminated(units).len() - 1 ==> terminated(units)[at]
            != 0,
{
}

/// A pair of pipes is made in four calls, and comes about only where the server's pipe begins to
/// connect without being connected: a failure of any call is what it comes to, with the error of
/// that call, and a connection that is there at once is refused.
pub proof fn law_failed_pipe_is_reported(
    first: PipeStep,
    server: usize,
    client: usize,
    returned: i32,
    code: i32,
    kind: ErrorKind,
    error: Error,
)
    requires
        first is Create,
    ensures
        ({
            let second = first.after(PipeAnswer::Handle(Ok(server)));
            let pending = Error::Os { code: 997, kind };
            let third = second.after((PipeAnswer::Connected { returned: 0, last_error: pending }));
            let fourth = third.after(PipeAnswer::Handle(Ok(client)));
            let failed = Error::Os { code, kind };
            &&& first.after(PipeAnswer::Handle(Err(error))) == PipeStep::Over(Err(error))
            &&& second == (PipeStep::Connect { server })
            &&& returned != 0 ==> second.after(
                (PipeAnswer::Connected { returned, last_error: error }),
            ) == PipeStep::Over(
                Err(Error::Custom { kind: ErrorKind::Other, message: CONNECTED_UNEXPECTEDLY }),
            )
            &&& code != 997 ==> second.after(
                (PipeAnswer::Connected { returned: 0, last_error: failed }),
            ) == PipeStep::Over(Err(failed))
            &&& third is Open && third->Open_server == server
            &&& third.after(PipeAnswer::Handle(Err(error))) == PipeStep::Over(Err(error))
            &&& fourth == (PipeStep::Finish { server, client, timeout: 1000 })
            &&& fourth.after(PipeAnswer::Finished(Err(error))) == PipeStep::Over(Err(error))
        }),
{
}

/// The client's end is opened for reading and writing, as it exists, with operations that overlap and
/// without letting the server act for the client.
pub proof fn law_client_end_is_opened(server: usize, kind: ErrorKind)
    ensures
        ({
            let step = (PipeStep::Connect { server }).after(
                (PipeAnswer::Connected { returned: 0, last_error: Error::Os { code: 997, kind } }),
            );
            step == (PipeStep::Open {
                server,
                access: 0xc000_0000,
                disposition: 3,
                flags: 0x4001_0000,
            })
        }),
{
    assert(0x8000_0000u32 | 0x4000_0000u32 == 0xc000_0000u32) by (bit_vector);
    assert(0x0001_0000u32 | 0x4000_0000u32 == 0x4001_0000u32) by (bit_vector);
}

} // verus!
