//! One attempt at a transfer over a socket that does not block: the check whether it is ready, the
//! system call, and the word to the event queue where the call would have blocked.
use vstd::prelude::*;

use crate::error::{Error, ErrorKind};
use crate::poll::Poll;
use crate::queue::unix::Filter;

verus! {

/// The text of the error for a message that was sent in part.
pub const PARTIAL_MESSAGE: &'static str = "entire message was not sent";

/// What is attempted.
#[derive(Clone, Copy, PartialEq, Eq, Debug, Structural)]
pub enum Transfer {
    /// Read from a stream.
    Read,
    /// Write to a stream.
    Write,
    /// Receive a message from a channel.
    Recv,
    /// Send a message of this length over a channel, as a whole.
    Send { length: usize },
    /// Take in a connection.
    Accept,
}

/// What the attempt has to do next.
#[derive(Clone, Copy, PartialEq, Eq, Debug, Structural)]
pub enum Step {
    /// Ask the registration whether the socket is ready for this class, and subscribe the task
    /// where it is not.
    PollReady(Filter),
    /// Make the system call.
    Call,
    /// Tell the registration that the socket is not ready for this class, and subscribe the task.
    ClearReady(Filter),
}

/// Where an attempt stands: the next step, or what it came to.
pub enum AttemptModel {
    Next(Step),
    Over(Poll<Result<usize, Error>>),
}

impl Transfer {
    /// The class that the socket has to be ready for.
    pub open spec fn spec_filter(self) -> Filter {
        match self {
            Transfer::Read => Filter::Read,
            Transfer::Write => Filter::Write,
            Transfer::Recv => Filter::Read,
            Transfer::Send { length } => Filter::Write,
            Transfer::Accept => Filter::Read,
        }
    }

    /// The class that the socket has to be ready for.
    pub fn filter(&self) -> (filter: Filter)
        ensures
            filter == self.spec_filter(),
    {
        match self {
            Transfer::Read => Filter::Read,
            Transfer::Write => Filter::Write,
            Transfer::Recv => Filter::Read,
            Transfer::Send { .. } => Filter::Write,
            Transfer::Accept => Filter::Read,
        }
    }

    /// Whether a system call did what was attempted: a message has to go as a whole.
    pub open spec fn succeeded(self, returned: isize) -> bool {
        match self {
            Transfer::Send { length } => returned == length,
            _ => returned >= 0,
        }
    }

    /// The error of a system call that did not.
    pub open spec fn failure(self, returned: isize, last_error: Error) -> Error {
        if returned < 0 {
            last_error
        } else {
            Error::Custom { kind: ErrorKind::Other, message: PARTIAL_MESSAGE }
        }
    }

    /// Where the attempt stands after the system call. Only reading is taken up again where it was
    /// interrupted. Writing to a stream hands out what the call returned even so.
    pub open spec fn after_call(self, returned: isize, last_error: Error) -> AttemptModel {
        if self.succeeded(returned) {
            AttemptModel::Over(Poll::Ready(Ok(returned as usize)))
        } else {
            let error = self.failure(returned, last_error);
            if error.spec_kind() == ErrorKind::WouldBlock {
                AttemptModel::Next(Step::ClearReady(self.spec_filter()))
            } else if error.spec_kind() == ErrorKind::Interrupted && self is Read {
                AttemptModel::Next(Step::Call)
            } else if error.spec_kind() == ErrorKind::Interrupted && self is Write {
                AttemptModel::Over(Poll::Ready(Ok(returned as usize)))
            } else {
                AttemptModel::Over(Poll::Ready(Err(error)))
            }
        }
    }
}

/// What happens to an attempt.
pub enum AttemptEvent {
    ReadyPolled(bool),
    Called { returned: isize, last_error: Error },
    Cleared(Result<(), Error>),
}

impl AttemptModel {
    /// Where the attempt stands after an event that answers its next step.
    pub open spec fn after(self, transfer: Transfer, event: AttemptEvent) -> AttemptModel {
        match event {
            AttemptEvent::ReadyPolled(ready) => if ready {
                AttemptModel::Next(Step::Call)
            } else {
                AttemptModel::Over(Poll::Pending)
            },
            AttemptEvent::Called { returned, last_error } => transfer.after_call(
                returned,
                last_error,
            ),
            AttemptEvent::Cleared(answer) => match answer {
                Ok(_) => AttemptModel::Over(Poll::Pending),
                Err(error) => AttemptModel::Over(Poll::Ready(Err(error))),
            },
        }
    }
}

enum Phase {
    Next(Step),
    Over(Poll<Result<usize, Error>>),
}

/// One attempt at a transfer.
pub struct Attempt {
    transfer: Transfer,
    phase: Phase,
}

impl View for Attempt {
    type V = AttemptModel;

    closed spec fn view(&self) -> AttemptModel {
        match self.phase {
            Phase::Next(step) => AttemptModel::Next(step),
            Phase::Over(result) => AttemptModel::Over(result),
        }
    }
}

impl Attempt {
    /// What is attempted.
    pub closed spec fn transfer(self) -> Transfer {
        self.transfer
    }

    /// Begins an attempt.
    pub fn new(transfer: Transfer) -> (attempt: Attempt)
        ensures
            attempt.transfer() == transfer,
            attempt@ == AttemptModel::Next(Step::PollReady(transfer.spec_filter())),
    {
        Attempt { transfer, phase: Phase::Next(Step::PollReady(transfer.filter())) }
    }

    /// The next step, or what the attempt came to: the number of bytes, or the descriptor of the
    /// connection that was taken in.
    pub fn next_step(&self) -> (step: Result<Step, Poll<Result<usize, Error>>>)
        ensures
            step == (match self@ {
                AttemptModel::Next(step) => Ok(step),
                AttemptModel::Over(result) => Err(result),
            }),
    {
        match &self.phase {
            Phase::Next(step) => Ok(*step),
            Phase::Over(Poll::Pending) => Err(Poll::Pending),
            Phase::Over(Poll::Ready(Ok(value))) => Err(Poll::Ready(Ok(*value))),
            Phase::Over(Poll::Ready(Err(error))) => Err(Poll::Ready(Err(*error))),
        }
    }

    /// The registration said whether the socket is ready.
    pub fn ready_polled(&mut self, ready: bool)
        requires
            old(self)@ matches AttemptModel::Next(Step::PollReady(_)),
        ensures
            final(self).transfer() == old(self).transfer(),
            final(self)@ == old(self)@.after(
                old(self).transfer(),
                AttemptEvent::ReadyPolled(ready),
            ),
    {
        if ready {
            self.phase = Phase::Next(Step::Call);
        } else {
            self.phase = Phase::Over(Poll::Pending);
        }
    }

    /// The system call returned; `last_error` is the error that it left where it is negative.
    pub fn called(&mut self, returned: isize, last_error: Error)
        requires
            old(self)@ == AttemptModel::Next(Step::Call),
            (old(self).transfer() matches Transfer::Send { length } ==> length <= isize::MAX),
        ensures
            final(self).transfer() == old(self).transfer(),
            final(self)@ == old(self)@.after(
                old(self).transfer(),
                (AttemptEvent::Called { returned, last_error }),
            ),
    {
        let transfer: Transfer = self.transfer;
        let succeeded: bool = match transfer {
            Transfer::Send { length } => returned == length as isize,
            _ => returned >= 0,
        };
        if succeeded {
            self.phase = Phase::Over(Poll::Ready(Ok(returned as usize)));
            return;
        }
        let error: Error = if returned < 0 {
            last_error
        } else {
            Error::Custom { kind: ErrorKind::Other, message: PARTIAL_MESSAGE }
        };
        match error.kind() {
            ErrorKind::WouldBlock => {
                self.phase = Phase::Next(Step::ClearReady(transfer.filter()));
            },
            ErrorKind::Interrupted => {
                match transfer {
                    Transfer::Read => {
                        self.phase = Phase::Next(Step::Call);
                    },
                    Transfer::Write => {
                        self.phase = Phase::Over(Poll::Ready(Ok(returned as usize)));
                    },
                    _ => {
                        self.phase = Phase::Over(Poll::Ready(Err(error)));
                    },
                }
            },
            _ => {
                self.phase = Phase::Over(Poll::Ready(Err(error)));
            },
        }
    }

    /// The registration took in that the socket is not ready, or could not.
    pub fn cleared(&mut self, answer: Result<(), Error>)
        requires
            old(self)@ matches AttemptModel::Next(Step::ClearReady(_)),
        ensures
            final(self).transfer() == old(self).transfer(),
            final(self)@ == old(self)@.after(
                old(self).transfer(),
                AttemptEvent::Cleared(answer),
            ),
    {
        match answer {
            Ok(_) => {
                self.phase = Phase::Over(Poll::Pending);
            },
            Err(error) => {
                self.phase = Phase::Over(Poll::Ready(Err(error)));
            },
        }
    }
}

/// An attempt that has to wait has left its task subscribed: it ends that way only after the
/// registration said that the socket is not ready, or took in that it is not.
pub proof fn law_pending_attempt_is_subscribed(
    model: AttemptModel,
    transfer: Transfer,
    event: AttemptEvent,
)
    requires
        model.after(transfer, event) == AttemptModel::Over(Poll::Pending),
    ensures
        event == AttemptEvent::ReadyPolled(false) || (event is Cleared && event->Cleared_0 is Ok),
{
}

/// A message goes as a whole or not at all: where sending succeeds, the system call took as many
/// bytes as the message has.
pub proof fn law_message_is_sent_whole(length: usize, returned: isize, last_error: Error, sent: usize)
    requires
        (Transfer::Send { length }).after_call(returned, last_error) == AttemptModel::Over(
            Poll::Ready(Ok(sent)),
        ),
    ensures
        sent == length,
{
}

/// Whoever attempts a transfer is told what the system call returned: where it returned a number of
/// bytes or a descriptor, for sending that of all bytes of the message, the attempt is over with that
/// number, whatever the transfer and whatever the number.
pub proof fn law_result_of_the_call_is_handed_out(
    model: AttemptModel,
    transfer: Transfer,
    returned: isize,
    last_error: Error,
)
    requires
        returned >= 0,
        transfer matches Transfer::Send { length } ==> returned == length,
    ensures
        model.after(transfer, (AttemptEvent::Called { returned, last_error })) == AttemptModel::Over(
            Poll::Ready(Ok(returned as usize)),
        ),
{
}

/// A call that would have blocked makes the attempt wait for the class of its transfer: reading,
/// receiving and accepting for what can be read, writing and sending for what can be written. It is
/// the same class that the attempt asked for at first.
pub proof fn law_blocked_attempt_waits_for_its_class(
    model: AttemptModel,
    transfer: Transfer,
    returned: isize,
    last_error: Error,
)
    requires
        returned < 0,
        match last_error {
            Error::Os { code, kind } => kind == ErrorKind::WouldBlock,
            Error::Custom { kind, message } => kind == ErrorKind::WouldBlock,
        },
    ensures
        model.after(transfer, (AttemptEvent::Called { returned, last_error })) == AttemptModel::Next(
            Step::ClearReady(
                if transfer is Write || transfer is Send {
                    Filter::Write
                } else {
                    Filter::Read
                },
            ),
        ),
        transfer.spec_filter() == (if transfer is Write || transfer is Send {
            Filter::Write
        } else {
            Filter::Read
        }),
{
}

/// A call that failed is reported with its error, unless it would have blocked or was interrupted;
/// an interrupted one is reported too where a message is received or sent or a connection taken in,
/// and is made again where a stream is read.
pub proof fn law_failed_call_is_reported(
    model: AttemptModel,
    transfer: Transfer,
    returned: isize,
    code: i32,
    kind: ErrorKind,
)
    requires
        returned < 0,
        kind != ErrorKind::WouldBlock,
    ensures
        ({
            let error = Error::Os { code, kind };
            let after = model.after(
                transfer,
                (AttemptEvent::Called { returned, last_error: error }),
            );
            &&& kind != ErrorKind::Interrupted || transfer is Recv || transfer is Send
                || transfer is Accept ==> after == AttemptModel::Over(Poll::Ready(Err(error)))
            &&& kind == ErrorKind::Interrupted && transfer is Read ==> after == AttemptModel::Next(
                Step::Call,
            )
            &&& kind == ErrorKind::Interrupted && transfer is Write ==> after == AttemptModel::Over(
                Poll::Ready(Ok(returned as usize)),
            )
        }),
{
}

/// A message that the system call took in part only is an error, whatever error was left.
pub proof fn law_partial_message_is_an_error(
    model: AttemptModel,
    length: usize,
    returned: isize,
    last_error: Error,
)
    requires
        returned >= 0,
        returned != length,
    ensures
        model.after(
            (Transfer::Send { length }),
            (AttemptEvent::Called { returned, last_error }),
        ) == AttemptModel::Over(
            Poll::Ready(Err(Error::Custom { kind: ErrorKind::Other, message: PARTIAL_MESSAGE })),
        ),
{
}

/// The system call is made where the socket is ready, and only there; where it is not, or the
/// registration took in that it is not, the task waits, and where the registration could not, its
/// error is reported.
pub proof fn law_attempt_follows_readiness(
    model: AttemptModel,
    transfer: Transfer,
    ready: bool,
    answer: Result<(), Error>,
)
    ensures
        model.after(transfer, AttemptEvent::ReadyPolled(ready)) == AttemptModel::Next(Step::Call)
            <==> ready,
        model.after(transfer, AttemptEvent::ReadyPolled(ready)) == AttemptModel::Over(Poll::Pending)
            <==> !ready,
        model.after(transfer, AttemptEvent::Cleared(answer)) == AttemptModel::Over(Poll::Pending)
            <==> answer is Ok,
        answer matches Err(error) ==> model.after(transfer, AttemptEvent::Cleared(answer))
            == AttemptModel::Over(Poll::Ready(Err(error))),
{
}

} // verus!
