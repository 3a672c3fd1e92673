//! Accepting and connecting through overlapped operations.
use vstd::prelude::*;

use crate::error::{Error, ErrorKind};
use crate::poll::Poll;

verus! {

/// The socket option that hands an accepted socket the properties of the listener.
pub const SO_UPDATE_ACCEPT_CONTEXT: i32 = 0x700b;

/// The socket option that makes a connected socket known as such.
pub const SO_UPDATE_CONNECT_CONTEXT: i32 = 0x7010;

/// The room for each of the two addresses that accepting yields.
pub const ADDRESS_ROOM: u32 = 128;

/// The text of the error for a function pointer of another size.
pub const WRONG_POINTER_SIZE: &'static str = "invalid length for SIO_GET_EXTENSION_FUNCTION_POINTER";

/// The identifier of an extension function.
#[derive(Clone, Copy, PartialEq, Eq, Debug)]
pub struct Guid {
    pub data1: u32,
    pub data2: u16,
    pub data3: u16,
    pub data4: [u8; 8],
}

/// What is being done: taking in a connection, or making one.
#[derive(Clone, Copy, PartialEq, Eq, Debug, Structural)]
pub enum Purpose {
    Accept,
    Connect,
}

/// A step of accepting or connecting, or what a poll came to.
#[derive(PartialEq, Eq, Debug)]
pub enum OverlappedStep {
    /// Make a socket, bound to any address of the machine where `bind_any` says so.
    Create { is_ipv4: bool, bind_any: bool },
    /// Register the socket with the event queue.
    Register,
    /// Begin the operation, or poll it.
    StartOrPoll,
    /// Set the option that completes the socket.
    UpdateContext { option: i32 },
    /// The poll is over; where it is ready with no error the socket is handed out.
    Over(Poll<Result<(), Error>>),
}

/// The answer to a step.
#[derive(PartialEq, Eq, Debug)]
pub enum OverlappedAnswer {
    /// Whether a socket was made, registered or completed.
    Done(Result<(), Error>),
    /// What the operation came to.
    Polled(Poll<Result<usize, Error>>),
}

/// A connection that is being taken in or made.
#[derive(PartialEq, Eq, Debug)]
pub struct OverlappedFuture {
    pub purpose: Purpose,
    pub is_ipv4: bool,
    /// Whether a socket is kept from one poll to the next.
    pub has_socket: bool,
    pub step: OverlappedStep,
}

impl OverlappedFuture {
    /// Whether there is a socket where the operation is at work on one, and none while one is made.
    pub open spec fn wf(self) -> bool {
        match self.step {
            OverlappedStep::Create { is_ipv4, bind_any } => !self.has_socket,
            OverlappedStep::Register => !self.has_socket,
            OverlappedStep::StartOrPoll => self.has_socket,
            OverlappedStep::UpdateContext { option } => self.has_socket,
            OverlappedStep::Over(result) => true,
        }
    }

    /// The first step for a new socket. One that is to be connected has to be bound before.
    pub open spec fn spec_create(self) -> OverlappedStep {
        OverlappedStep::Create { is_ipv4: self.is_ipv4, bind_any: self.purpose == Purpose::Connect }
    }

    /// The option that completes the socket.
    pub open spec fn spec_option(self) -> i32 {
        match self.purpose {
            Purpose::Accept => SO_UPDATE_ACCEPT_CONTEXT,
            Purpose::Connect => SO_UPDATE_CONNECT_CONTEXT,
        }
    }

    /// Whether an answer is one to the step.
    pub open spec fn answered_by(self, answer: OverlappedAnswer) -> bool {
        match self.step {
            OverlappedStep::Create { is_ipv4, bind_any } => answer is Done,
            OverlappedStep::Register => answer is Done,
            OverlappedStep::StartOrPoll => answer is Polled,
            OverlappedStep::UpdateContext { option } => answer is Done,
            OverlappedStep::Over(result) => false,
        }
    }

    /// The step that follows an answer.
    pub open spec fn after(self, answer: OverlappedAnswer) -> OverlappedStep {
        match answer {
            OverlappedAnswer::Done(done) => match done {
                Ok(_) => match self.step {
                    OverlappedStep::Create { is_ipv4, bind_any } => OverlappedStep::Register,
                    OverlappedStep::Register => OverlappedStep::StartOrPoll,
                    _ => OverlappedStep::Over(Poll::Ready(Ok(()))),
                },
                Err(error) => OverlappedStep::Over(Poll::Ready(Err(error))),
            },
            OverlappedAnswer::Polled(polled) => match polled {
                Poll::Ready(result) => match result {
                    Ok(_) => OverlappedStep::UpdateContext { option: self.spec_option() },
                    Err(error) => OverlappedStep::Over(Poll::Ready(Err(error))),
                },
                Poll::Pending => OverlappedStep::Over(Poll::Pending),
            },
        }
    }

    /// Whether a socket is kept after an answer: once it is registered, until it is handed out.
    pub open spec fn keeps_socket(self, answer: OverlappedAnswer) -> bool {
        if answer matches OverlappedAnswer::Done(Ok(_)) {
            match self.step {
                OverlappedStep::Register => true,
                OverlappedStep::UpdateContext { option } => false,
                _ => self.has_socket,
            }
        } else {
            self.has_socket
        }
    }

    /// Accepting or connecting that is yet to be begun.
    pub fn new(purpose: Purpose, is_ipv4: bool) -> (future: OverlappedFuture)
        ensures
            future.purpose == purpose,
            future.is_ipv4 == is_ipv4,
            !future.has_socket,
            future.wf(),
            future.step == future.spec_create(),
    {
        OverlappedFuture {
            purpose,
            is_ipv4,
            has_socket: false,
            step: OverlappedStep::Create { is_ipv4, bind_any: purpose == Purpose::Connect },
        }
    }

    /// Begins a poll: with the socket that is kept, or with a new one.
    pub fn begin_poll(&mut self)
        ensures
            final(self).purpose == old(self).purpose,
            final(self).is_ipv4 == old(self).is_ipv4,
            final(self).wf(),
            final(self).has_socket == old(self).has_socket,
            final(self).step == (if old(self).has_socket {
                OverlappedStep::StartOrPoll
            } else {
                old(self).spec_create()
            }),
    {
        if self.has_socket {
            self.step = OverlappedStep::StartOrPoll;
        } else {
            self.step = OverlappedStep::Create {
                is_ipv4: self.is_ipv4,
                bind_any: self.purpose == Purpose::Connect,
            };
        }
    }

    /// Takes in the answer to the step.
    pub fn step_done(&mut self, answer: OverlappedAnswer)
        requires
            old(self).wf(),
            old(self).answered_by(answer),
        ensures
            final(self).wf(),
            final(self).purpose == old(self).purpose,
            final(self).is_ipv4 == old(self).is_ipv4,
            final(self).step == old(self).after(answer),
            final(self).has_socket == old(self).keeps_socket(answer),
    {
        match answer {
            OverlappedAnswer::Done(Ok(_)) => {
                match &self.step {
                    OverlappedStep::Create { .. } => {
                        self.step = OverlappedStep::Register;
                    },
                    OverlappedStep::Register => {
                        self.has_socket = true;
                        self.step = OverlappedStep::StartOrPoll;
                    },
                    _ => {
                        self.has_socket = false;
                        self.step = OverlappedStep::Over(Poll::Ready(Ok(())));
                    },
                }
            },
            OverlappedAnswer::Done(Err(error)) => {
                self.step = OverlappedStep::Over(Poll::Ready(Err(error)));
            },
            OverlappedAnswer::Polled(Poll::Ready(Ok(_))) => {
                let option: i32 = match self.purpose {
                    Purpose::Accept => SO_UPDATE_ACCEPT_CONTEXT,
                    Purpose::Connect => SO_UPDATE_CONNECT_CONTEXT,
                };
                self.step = OverlappedStep::UpdateContext { option };
            },
            OverlappedAnswer::Polled(Poll::Ready(Err(error))) => {
                self.step = OverlappedStep::Over(Poll::Ready(Err(error)));
            },
            OverlappedAnswer::Polled(Poll::Pending) => {
                self.step = OverlappedStep::Over(Poll::Pending);
            },
        }
    }
}

/// The identifier of the function that connects.
pub fn connect_ex_id() -> (id: Guid)
    ensures
        id.data1 == 0x25a2_07b9,
        id.data2 == 0xddf3,
        id.data3 == 0x4660,
        id.data4@ == seq![0x8eu8, 0xe9, 0x76, 0xe5, 0x8c, 0x74, 0x06, 0x3e],
{
    Guid {
        data1: 0x25a2_07b9,
        data2: 0xddf3,
        data3: 0x4660,
        data4: [0x8e, 0xe9, 0x76, 0xe5, 0x8c, 0x74, 0x06, 0x3e],
    }
}

/// The identifier of the function that accepts.
pub fn accept_ex_id() -> (id: Guid)
    ensures
        id.data1 == 0xb536_7df1,
        id.data2 == 0xcbac,
        id.data3 == 0x11cf,
        id.data4@ == seq![0x95u8, 0xca, 0x00, 0x80, 0x5f, 0x48, 0xa1, 0x92],
{
    Guid {
        data1: 0xb536_7df1,
        data2: 0xcbac,
        data3: 0x11cf,
        data4: [0x95, 0xca, 0x00, 0x80, 0x5f, 0x48, 0xa1, 0x92],
    }
}

/// Reads the answer to the question for an extension function: `returned` is not zero for a failure,
/// of which `last_error` tells, and `out_bytes` is the size of what was written to `pointer`, a
/// pointer of `pointer_size` bytes.
pub fn get_winsock_function(
    returned: i32,
    last_error: Error,
    out_bytes: u32,
    pointer_size: usize,
    pointer: usize,
) -> (result: Result<usize, Error>)
    ensures
        result == (if returned != 0 {
            Err(last_error)
        } else if out_bytes != pointer_size {
            Err(Error::Custom { kind: ErrorKind::InvalidData, message: WRONG_POINTER_SIZE })
        } else {
            Ok(pointer)
        }),
{
    if returned != 0 {
        return Err(last_error);
    }
    if out_bytes as usize != pointer_size {
        return Err(
            Error::Custom { kind: ErrorKind::InvalidData, message: WRONG_POINTER_SIZE },
        );
    }
    Ok(pointer)
}

/// The length of a buffer as the system calls take it, in 32 bits.
pub fn buffer_length(length: usize) -> (result: u32)
    ensures
        result == length as int % 0x1_0000_0000,
{
    let wide: u64 = length as u64;
    assert(wide as u32 == wide % 0x1_0000_0000) by (bit_vector);
    #[verifier::truncate]
    (wide as u32)
}

/// An operation that has to wait keeps its socket, which the operating system works on, for the next
/// poll.
pub proof fn law_pending_operation_keeps_socket(future: OverlappedFuture, answer: OverlappedAnswer)
    requires
        future.wf(),
        future.answered_by(answer),
        future.after(answer) == OverlappedStep::Over(Poll::Pending),
    ensures
        future.keeps_socket(answer),
{
}

/// A connection is handed out only once its operation is over without an error and the socket has
/// been completed.
pub proof fn law_only_a_completed_socket_is_handed_out(
    future: OverlappedFuture,
    answer: OverlappedAnswer,
)
    requires
        future.answered_by(answer),
    ensures
        future.after(answer) == OverlappedStep::Over(Poll::Ready(Ok(()))) <==> future.step
            is UpdateContext && (answer matches OverlappedAnswer::Done(done) && done is Ok),
        future.after(answer) is UpdateContext <==> (answer matches OverlappedAnswer::Polled(polled)
            && polled is Ready && polled->Ready_0 is Ok),
{
}

/// An operation that is over is taken to be so whatever number of bytes it moved, none included: the
/// socket is completed next, with the option of its purpose.
pub proof fn law_operation_that_is_over_is_completed(
    future: OverlappedFuture,
    bytes: usize,
)
    ensures
        future.after(OverlappedAnswer::Polled(Poll::Ready(Ok(bytes)))) == (
        OverlappedStep::UpdateContext {
            option: if future.purpose is Accept {
                0x700b
            } else {
                0x7010
            },
        }),
{
}

/// A failure of any step ends the poll with the error of that step, and no error comes from
/// elsewhere; the poll waits only where the operation does.
pub proof fn law_failed_overlapped_step_is_reported(
    future: OverlappedFuture,
    answer: OverlappedAnswer,
    error: Error,
)
    ensures
        future.after(answer) == OverlappedStep::Over(Poll::Ready(Err(error))) <==> answer
            == OverlappedAnswer::Done(Err(error)) || answer == OverlappedAnswer::Polled(
            Poll::Ready(Err(error)),
        ),
        future.after(answer) == OverlappedStep::Over(Poll::Pending) <==> answer
            == OverlappedAnswer::Polled(Poll::Pending),
{
}

/// A socket is made, registered and then given to the operation, in this order; one that is to be
/// connected is bound as it is made, one that is to be accepted into is not. It is kept from the
/// moment it is registered until it is handed out.
pub proof fn law_socket_is_prepared_for_its_operation(future: OverlappedFuture, answer: OverlappedAnswer)
    requires
        future.wf(),
        future.answered_by(answer),
    ensures
        future.spec_create() == (OverlappedStep::Create {
            is_ipv4: future.is_ipv4,
            bind_any: future.purpose is Connect,
        }),
        future.step is Create && answer == OverlappedAnswer::Done(Ok(())) ==> future.after(answer)
            == OverlappedStep::Register && !future.keeps_socket(answer),
        future.step is Register && answer == OverlappedAnswer::Done(Ok(())) ==> future.after(answer)
            == OverlappedStep::StartOrPoll && future.keeps_socket(answer),
        future.after(answer) is StartOrPoll ==> future.step is Register,
        future.after(answer) is Register ==> future.step is Create,
        !future.has_socket && future.keeps_socket(answer) ==> future.step is Register,
        future.has_socket && !future.keeps_socket(answer) <==> future.has_socket && future.after(
            answer,
        ) == OverlappedStep::Over(Poll::Ready(Ok(()))),
{
}

} // verus!
