//! Connecting a socket that does not block.
use vstd::prelude::*;

use super::address::sockaddr_len;
#[allow(unused_imports)]
use super::address::{SOCKADDR_IN6_SIZE, SOCKADDR_IN_SIZE};
use crate::error::Error;
use crate::poll::Poll;
#[allow(unused_imports)]
use crate::queue::iocp::has_code;

verus! {

/// A step of connecting, or what a poll came to.
#[derive(PartialEq, Eq, Debug)]
pub enum ConnectStep {
    /// Make a socket.
    Create { is_ipv4: bool },
    /// Make the socket non-blocking, and closed on the execution of another program.
    SetFlags,
    /// Register the socket with the event queue.
    Register,
    /// Begin to connect the socket.
    Connect { address_length: u32 },
    /// Tell the registration that the socket cannot be written to, and subscribe the task.
    ClearReady,
    /// Ask the registration whether the socket can be written to.
    PollReady,
    /// Ask the socket for its error.
    TakeError,
    /// The poll is over; where it is ready with no error the socket is handed out.
    Over(Poll<Result<(), Error>>),
}

/// The answer to a step.
#[derive(PartialEq, Eq, Debug)]
pub enum ConnectAnswer {
    /// Whether a socket was made, set up, registered, or marked as not ready.
    Done(Result<(), Error>),
    /// What connecting returned, and the error that it left.
    Connected { returned: i32, last_error: Error },
    /// Whether the socket can be written to.
    ReadyPolled(bool),
    /// The error of the socket, where it could be asked for.
    ErrorTaken(Result<Option<Error>, Error>),
}

/// A connection that is being made.
#[derive(PartialEq, Eq, Debug)]
pub struct ConnectFuture {
    pub is_ipv4: bool,
    /// The code of an error that says that connecting goes on.
    pub in_progress: i32,
    /// Whether a socket is kept from one poll to the next.
    pub has_socket: bool,
    pub step: ConnectStep,
}

impl ConnectFuture {
    /// Whether there is a socket where one is waited for, and none while one is made.
    pub open spec fn wf(self) -> bool {
        match self.step {
            ConnectStep::PollReady => self.has_socket,
            ConnectStep::TakeError => self.has_socket,
            ConnectStep::Over(result) => true,
            _ => !self.has_socket,
        }
    }

    /// Whether an answer is one to the step.
    pub open spec fn answered_by(self, answer: ConnectAnswer) -> bool {
        match self.step {
            ConnectStep::Create { is_ipv4 } => answer is Done,
            ConnectStep::SetFlags => answer is Done,
            ConnectStep::Register => answer is Done,
            ConnectStep::Connect { address_length } => answer is Connected,
            ConnectStep::ClearReady => answer is Done,
            ConnectStep::PollReady => answer is ReadyPolled,
            ConnectStep::TakeError => answer is ErrorTaken,
            ConnectStep::Over(result) => false,
        }
    }

    /// The size of the address that is connected to.
    pub open spec fn spec_address_length(self) -> u32 {
        if self.is_ipv4 {
            SOCKADDR_IN_SIZE
        } else {
            SOCKADDR_IN6_SIZE
        }
    }

    /// The step that follows one that was done, or could not be.
    pub open spec fn after_done(self, answer: Result<(), Error>) -> ConnectStep {
        match answer {
            Ok(_) => match self.step {
                ConnectStep::Create { is_ipv4 } => ConnectStep::SetFlags,
                ConnectStep::SetFlags => ConnectStep::Register,
                ConnectStep::Register => ConnectStep::Connect {
                    address_length: self.spec_address_length(),
                },
                _ => ConnectStep::Over(Poll::Pending),
            },
            Err(error) => ConnectStep::Over(Poll::Ready(Err(error))),
        }
    }

    /// The step that follows an answer. That connecting goes on is no failure: the socket is kept,
    /// and the task waits until it can be written to. An error that the socket then reports is left
    /// to the first transfer.
    pub open spec fn after(self, answer: ConnectAnswer) -> ConnectStep {
        match answer {
            ConnectAnswer::Done(done) => self.after_done(done),
            ConnectAnswer::Connected { returned, last_error } => if returned == 0 {
                ConnectStep::Over(Poll::Ready(Ok(())))
            } else if has_code(last_error, self.in_progress) {
                ConnectStep::ClearReady
            } else {
                ConnectStep::Over(Poll::Ready(Err(last_error)))
            },
            ConnectAnswer::ReadyPolled(ready) => if ready {
                ConnectStep::TakeError
            } else {
                ConnectStep::Over(Poll::Pending)
            },
            ConnectAnswer::ErrorTaken(taken) => match taken {
                Ok(_) => ConnectStep::Over(Poll::Ready(Ok(()))),
                Err(error) => ConnectStep::Over(Poll::Ready(Err(error))),
            },
        }
    }

    /// Whether a socket is kept after an answer: from the moment on that connecting goes on, until
    /// it is handed out.
    pub open spec fn keeps_socket(self, answer: ConnectAnswer) -> bool {
        match answer {
            ConnectAnswer::Done(done) => self.has_socket || (self.step is ClearReady && done is Ok),
            ConnectAnswer::ErrorTaken(taken) => self.has_socket && taken is Err,
            _ => self.has_socket,
        }
    }

    /// A connection to an address that is yet to be begun. `in_progress` is the code of an error
    /// that says that connecting goes on.
    pub fn new(is_ipv4: bool, in_progress: i32) -> (connect: ConnectFuture)
        ensures
            connect.wf(),
            connect == (ConnectFuture {
                is_ipv4,
                in_progress,
                has_socket: false,
                step: ConnectStep::Create { is_ipv4 },
            }),
    {
        ConnectFuture {
            is_ipv4,
            in_progress,
            has_socket: false,
            step: ConnectStep::Create { is_ipv4 },
        }
    }

    /// Begins a poll: with the socket that is kept, or with a new one.
    pub fn begin_poll(&mut self)
        ensures
            final(self).is_ipv4 == old(self).is_ipv4,
            final(self).in_progress == old(self).in_progress,
            final(self).wf(),
            final(self).has_socket == old(self).has_socket,
            final(self).step == (if old(self).has_socket {
                ConnectStep::PollReady
            } else {
                ConnectStep::Create { is_ipv4: old(self).is_ipv4 }
            }),
    {
        if self.has_socket {
            self.step = ConnectStep::PollReady;
        } else {
            self.step = ConnectStep::Create { is_ipv4: self.is_ipv4 };
        }
    }

    /// Takes in the answer to the step.
    pub fn step_done(&mut self, answer: ConnectAnswer)
        requires
            old(self).wf(),
            old(self).answered_by(answer),
        ensures
            final(self).wf(),
            final(self).is_ipv4 == old(self).is_ipv4,
            final(self).in_progress == old(self).in_progress,
            final(self).step == old(self).after(answer),
            final(self).has_socket == old(self).keeps_socket(answer),
    {
        match answer {
            ConnectAnswer::Done(Err(error)) => {
                self.step = ConnectStep::Over(Poll::Ready(Err(error)));
            },
            ConnectAnswer::Done(Ok(_)) => {
                match &self.step {
                    ConnectStep::Create { .. } => {
                        self.step = ConnectStep::SetFlags;
                    },
                    ConnectStep::SetFlags => {
                        self.step = ConnectStep::Register;
                    },
                    ConnectStep::Register => {
                        self.step = ConnectStep::Connect {
                            address_length: sockaddr_len(self.is_ipv4),
                        };
                    },
                    _ => {
                        self.has_socket = true;
                        self.step = ConnectStep::Over(Poll::Pending);
                    },
                }
            },
            ConnectAnswer::Connected { returned, last_error } => {
                let code: Option<i32> = last_error.raw_os_error();
                if returned == 0 {
                    self.step = ConnectStep::Over(Poll::Ready(Ok(())));
                } else if code == Some(self.in_progress) {
                    self.step = ConnectStep::ClearReady;
                } else {
                    self.step = ConnectStep::Over(Poll::Ready(Err(last_error)));
                }
            },
            ConnectAnswer::ReadyPolled(ready) => {
                if ready {
                    self.step = ConnectStep::TakeError;
                } else {
                    self.step = ConnectStep::Over(Poll::Pending);
                }
            },
            ConnectAnswer::ErrorTaken(Ok(_)) => {
                self.has_socket = false;
                self.step = ConnectStep::Over(Poll::Ready(Ok(())));
            },
            ConnectAnswer::ErrorTaken(Err(error)) => {
                self.step = ConnectStep::Over(Poll::Ready(Err(error)));
            },
        }
    }
}

/// A connection that has to wait has left its task subscribed, and keeps its socket for the next
/// poll.
pub proof fn law_pending_connection_is_subscribed(connect: ConnectFuture, answer: ConnectAnswer)
    requires
        connect.wf(),
        connect.answered_by(answer),
        connect.after(answer) == ConnectStep::Over(Poll::Pending),
    ensures
        answer == ConnectAnswer::ReadyPolled(false) || (connect.step is ClearReady && answer is Done
            && answer->Done_0 is Ok),
        connect.keeps_socket(answer),
{
}

/// What connecting returns decides, alike for addresses of both versions: zero hands the socket out,
/// the error that says that connecting goes on makes the task wait, and any other error is reported
/// as it is.
pub proof fn law_connecting_is_judged_by_its_answer(
    connect: ConnectFuture,
    returned: i32,
    last_error: Error,
)
    ensures
        ({
            let goes_on = match last_error {
                Error::Os { code, kind } => code == connect.in_progress,
                Error::Custom { kind, message } => false,
            };
            let after = connect.after((ConnectAnswer::Connected { returned, last_error }));
            &&& after == ConnectStep::Over(Poll::Ready(Ok(()))) <==> returned == 0
            &&& after == ConnectStep::ClearReady <==> returned != 0 && goes_on
            &&& after == ConnectStep::Over(Poll::Ready(Err(last_error))) <==> returned != 0
                && !goes_on
        }),
{
}

/// A connection is handed out only after connecting returned zero, or after the socket became
/// writable and could be asked for its error.
pub proof fn law_only_a_connection_is_handed_out(connect: ConnectFuture, answer: ConnectAnswer)
    requires
        connect.answered_by(answer),
        connect.after(answer) == ConnectStep::Over(Poll::Ready(Ok(()))),
    ensures
        match answer {
            ConnectAnswer::Connected { returned, last_error } => connect.step is Connect && returned
                == 0,
            ConnectAnswer::ErrorTaken(taken) => connect.step is TakeError && taken is Ok,
            _ => false,
        },
{
}

/// A failure of any step ends the poll with the error of that step, and no error comes from
/// elsewhere.
pub proof fn law_failed_step_is_reported(connect: ConnectFuture, answer: ConnectAnswer, error: Error)
    requires
        connect.answered_by(answer),
    ensures
        answer == ConnectAnswer::Done(Err(error)) ==> connect.after(answer) == ConnectStep::Over(
            Poll::Ready(Err(error)),
        ),
        answer == ConnectAnswer::ErrorTaken(Err(error)) ==> connect.after(answer)
            == ConnectStep::Over(Poll::Ready(Err(error))),
        connect.after(answer) == ConnectStep::Over(Poll::Ready(Err(error))) ==> match answer {
            ConnectAnswer::Done(done) => done == Err::<(), Error>(error),
            ConnectAnswer::Connected { returned, last_error } => last_error == error,
            ConnectAnswer::ReadyPolled(ready) => false,
            ConnectAnswer::ErrorTaken(taken) => taken == Err::<Option<Error>, Error>(error),
        },
{
}

/// A new socket is made, set up and registered before it is connected, each once and in this order,
/// and what is connected to has the size of an address of its version.
pub proof fn law_socket_is_prepared_before_it_connects(
    is_ipv4: bool,
    in_progress: i32,
    set_up: ConnectFuture,
    registered: ConnectFuture,
    connecting: ConnectFuture,
)
    requires
        set_up.step == (ConnectFuture {
            is_ipv4,
            in_progress,
            has_socket: false,
            step: ConnectStep::Create { is_ipv4 },
        }).after(ConnectAnswer::Done(Ok(()))),
        registered.step == set_up.after(ConnectAnswer::Done(Ok(()))),
        connecting.step == registered.after(ConnectAnswer::Done(Ok(()))),
        registered.is_ipv4 == is_ipv4,
    ensures
        set_up.step == ConnectStep::SetFlags,
        registered.step == ConnectStep::Register,
        connecting.step == (ConnectStep::Connect {
            address_length: if is_ipv4 {
                16
            } else {
                28
            },
        }),
{
}

/// A connection that goes on waits until its socket can be written to, with the socket kept, and is
/// asked for its error only then; it is handed out after that, and no longer kept.
pub proof fn law_connection_that_goes_on_is_kept(connect: ConnectFuture, answer: ConnectAnswer)
    requires
        connect.wf(),
        connect.answered_by(answer),
    ensures
        connect.step is ClearReady && answer == ConnectAnswer::Done(Ok(())) ==> connect.after(answer)
            == ConnectStep::Over(Poll::Pending) && connect.keeps_socket(answer),
        answer == ConnectAnswer::ReadyPolled(true) ==> connect.after(answer) == ConnectStep::TakeError
            && connect.keeps_socket(answer),
        answer == ConnectAnswer::ReadyPolled(false) ==> connect.after(answer) == ConnectStep::Over(
            Poll::Pending,
        ) && connect.keeps_socket(answer),
        connect.after(answer) is TakeError ==> answer == ConnectAnswer::ReadyPolled(true),
        connect.after(answer) == ConnectStep::Over(Poll::Ready(Ok(())))
            ==> !connect.keeps_socket(answer),
        !connect.has_socket && connect.keeps_socket(answer) ==> connect.step is ClearReady,
        connect.has_socket && !connect.keeps_socket(answer) ==> connect.after(answer)
            == ConnectStep::Over(Poll::Ready(Ok(()))),
        connect.step is TakeError ==> connect.after(answer) is Over,
{
}

} // verus!
