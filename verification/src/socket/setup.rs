//! Making pairs of sockets, and taking sockets over.
use vstd::prelude::*;

use crate::error::Error;

verus! {

/// The kind of socket that a pair is made of.
#[derive(Clone, Copy, PartialEq, Eq, Debug, Structural)]
pub enum SocketType {
    /// A stream of bytes.
    Stream,
    /// Messages, which arrive as they were sent, one by one.
    SeqPacket,
}

/// A step of making a pair of sockets, or what it came to.
#[derive(Clone, Copy, PartialEq, Eq, Debug)]
pub enum PairStep {
    /// Make the pair.
    Create(SocketType),
    /// Make the first socket non-blocking, and closed on the execution of another program.
    SetFirstFlags(i32, i32),
    /// The same of the second.
    SetSecondFlags(i32, i32),
    Over(Result<(i32, i32), Error>),
}

impl PairStep {
    /// The step that follows once the pair was to be made: `returned` is not zero for a failure.
    pub open spec fn after_create(returned: i32, fds: (i32, i32), last_error: Error) -> PairStep {
        if returned != 0 {
            PairStep::Over(Err(last_error))
        } else {
            PairStep::SetFirstFlags(fds.0, fds.1)
        }
    }

    /// The step that follows once flags were to be set.
    pub open spec fn after_flags(self, answer: Result<(), Error>) -> PairStep {
        match answer {
            Ok(_) => match self {
                PairStep::SetFirstFlags(first, second) => PairStep::SetSecondFlags(first, second),
                PairStep::SetSecondFlags(first, second) => PairStep::Over(Ok((first, second))),
                _ => self,
            },
            Err(error) => PairStep::Over(Err(error)),
        }
    }

    /// Takes in the answer to making the pair.
    pub fn created(returned: i32, fds: (i32, i32), last_error: Error) -> (step: PairStep)
        ensures
            step == PairStep::after_create(returned, fds, last_error),
    {
        if returned != 0 {
            PairStep::Over(Err(last_error))
        } else {
            PairStep::SetFirstFlags(fds.0, fds.1)
        }
    }

    /// Takes in the answer to setting flags.
    pub fn flags_set(self, answer: Result<(), Error>) -> (step: PairStep)
        requires
            self is SetFirstFlags || self is SetSecondFlags,
        ensures
            step == self.after_flags(answer),
    {
        match answer {
            Ok(_) => match self {
                PairStep::SetFirstFlags(first, second) => PairStep::SetSecondFlags(first, second),
                PairStep::SetSecondFlags(first, second) => PairStep::Over(Ok((first, second))),
                _ => self,
            },
            Err(error) => PairStep::Over(Err(error)),
        }
    }
}

/// In which order a socket is taken over.
#[derive(Clone, Copy, PartialEq, Eq, Debug, Structural)]
pub enum OpenOrder {
    /// Streams and channels are registered before their flags are set.
    RegisterFirst,
    /// Listeners and connections have their flags set before they are registered.
    FlagsFirst,
}

/// A step of taking a socket over, or what it came to.
#[derive(Clone, Copy, PartialEq, Eq, Debug)]
pub enum OpenStep {
    /// Register the socket with the event queue.
    Register,
    /// Make the socket non-blocking, and closed on the execution of another program.
    SetFlags,
    Over(Result<(), Error>),
}

/// A socket that is being taken over.
#[derive(Debug)]
pub struct Open {
    pub order: OpenOrder,
    pub step: OpenStep,
}

impl Open {
    /// The step that follows an answer: each of the two is done once, and the first failure ends it.
    pub open spec fn after(self, answer: Result<(), Error>) -> OpenStep {
        match answer {
            Ok(_) => match (self.order, self.step) {
                (OpenOrder::RegisterFirst, OpenStep::Register) => OpenStep::SetFlags,
                (OpenOrder::FlagsFirst, OpenStep::SetFlags) => OpenStep::Register,
                _ => OpenStep::Over(Ok(())),
            },
            Err(error) => OpenStep::Over(Err(error)),
        }
    }

    /// Begins to take a socket over.
    pub fn new(order: OpenOrder) -> (open: Open)
        ensures
            open.order == order,
            open.step == (match order {
                OpenOrder::RegisterFirst => OpenStep::Register,
                OpenOrder::FlagsFirst => OpenStep::SetFlags,
            }),
    {
        match order {
            OpenOrder::RegisterFirst => Open { order, step: OpenStep::Register },
            OpenOrder::FlagsFirst => Open { order, step: OpenStep::SetFlags },
        }
    }

    /// Takes in the answer to the step.
    pub fn step_done(&mut self, answer: Result<(), Error>)
        requires
            !(old(self).step is Over),
        ensures
            final(self).order == old(self).order,
            final(self).step == old(self).after(answer),
    {
        match answer {
            Ok(_) => {
                match (self.order, self.step) {
                    (OpenOrder::RegisterFirst, OpenStep::Register) => {
                        self.step = OpenStep::SetFlags;
                    },
                    (OpenOrder::FlagsFirst, OpenStep::SetFlags) => {
                        self.step = OpenStep::Register;
                    },
                    _ => {
                        self.step = OpenStep::Over(Ok(()));
                    },
                }
            },
            Err(error) => {
                self.step = OpenStep::Over(Err(error));
            },
        }
    }
}

/// A pair of sockets comes out as it was made, the first end first, once the flags of both have been
/// set, the first end's before the second's; the first failure is what it comes to otherwise.
pub proof fn law_pair_comes_out_as_it_was_made(
    returned: i32,
    fds: (i32, i32),
    last_error: Error,
    error: Error,
)
    ensures
        ({
            let first = PairStep::after_create(returned, fds, last_error);
            let second = first.after_flags(Ok(()));
            &&& returned != 0 ==> first == PairStep::Over(Err(last_error))
            &&& returned == 0 ==> {
                &&& first == PairStep::SetFirstFlags(fds.0, fds.1)
                &&& first.after_flags(Err(error)) == PairStep::Over(Err(error))
                &&& second == PairStep::SetSecondFlags(fds.0, fds.1)
                &&& second.after_flags(Err(error)) == PairStep::Over(Err(error))
                &&& second.after_flags(Ok(())) == PairStep::Over(Ok(fds))
            }
        }),
{
}

/// A socket is taken over by two steps, each made once, in the order that was asked for; it is over
/// without an error only after both, and the first failure is what it comes to otherwise.
pub proof fn law_socket_is_taken_over_by_two_steps(order: OpenOrder, error: Error)
    ensures
        ({
            let first = Open {
                order,
                step: if order is RegisterFirst {
                    OpenStep::Register
                } else {
                    OpenStep::SetFlags
                },
            };
            let second = Open { order, step: first.after(Ok(())) };
            &&& first.after(Err(error)) == OpenStep::Over(Err(error))
            &&& second.step == (if order is RegisterFirst {
                OpenStep::SetFlags
            } else {
                OpenStep::Register
            })
            &&& second.after(Err(error)) == OpenStep::Over(Err(error))
            &&& second.after(Ok(())) == OpenStep::Over(Ok(()))
        }),
{
}

} // verus!
