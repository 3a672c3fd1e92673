//! Mach ports and the rights to them.
use vstd::prelude::*;

use super::message::PortMsg;
#[allow(unused_imports)]
use super::message::with_field;
use super::message::MACH_PORT_NULL;
use crate::error::{Error, ErrorKind};

verus! {

/// The right to send.
pub const MACH_PORT_RIGHT_SEND: u32 = 0;

/// The right to receive.
pub const MACH_PORT_RIGHT_RECEIVE: u32 = 1;

/// A send right, as the kernel names the rights that it hands out.
pub const MACH_MSG_TYPE_PORT_SEND: u32 = 17;

/// The call succeeded.
pub const KERN_SUCCESS: u32 = 0;

/// There is no such right.
pub const KERN_INVALID_RIGHT: u32 = 17;

/// Send a message.
pub const MACH_SEND_MSG: u32 = 0x1;

/// Receive a message.
pub const MACH_RCV_MSG: u32 = 0x2;

/// Keep a message that is larger than the buffer.
pub const MACH_RCV_LARGE: u32 = 0x4;

/// Stop receiving after the time that is given.
pub const MACH_RCV_TIMEOUT: u32 = 0x100;

/// The time of a call that has none.
pub const MACH_MSG_TIMEOUT_NONE: u32 = 0;

/// The text of the error for a right of another type.
pub const WRONG_RIGHT: &'static str = "mach_port_extract_right did not return requested right type";

/// The bit that stands for a right in a port's type.
pub fn mach_port_type(right: u32) -> (bit: u32)
    requires
        right < 16,
    ensures
        bit == 1u32 << (right + 16) as u32,
{
    1u32 << (right + 16)
}

/// A port, and which rights to it are held.
#[derive(PartialEq, Eq, Debug)]
pub struct Port {
    pub port: u32,
    pub has_receive: bool,
    pub has_send: bool,
}

/// The arguments of `mach_msg` for receiving.
#[derive(Clone, Copy, PartialEq, Eq, Debug, Structural)]
pub struct RecvArguments {
    pub flags: u32,
    pub receive_limit: usize,
    pub port: u32,
    pub timeout: u32,
}

/// The arguments of `mach_msg` for sending.
#[derive(Clone, Copy, PartialEq, Eq, Debug, Structural)]
pub struct SendArguments {
    pub flags: u32,
    pub send_size: u32,
    pub timeout: u32,
}

/// A port with the right to receive.
pub open spec fn receiver(port: u32) -> Port {
    Port { port, has_receive: true, has_send: false }
}

/// What making a right to send comes to: `extracted` holds its name and its type, which has to be
/// that of a send right.
pub open spec fn sender(extracted: Result<(u32, u32), Error>) -> Result<Port, Error> {
    match extracted {
        Ok((port, right)) => if right == MACH_MSG_TYPE_PORT_SEND {
            Ok(Port { port, has_receive: false, has_send: true })
        } else {
            Err(Error::Custom { kind: ErrorKind::Other, message: WRONG_RIGHT })
        },
        Err(error) => Err(error),
    }
}

impl Port {
    /// The port that was allocated, with the right to receive.
    pub fn new(allocated: Result<u32, Error>) -> (result: Result<Port, Error>)
        ensures
            result == (match allocated {
                Ok(port) => Ok(receiver(port)),
                Err(error) => Err(error),
            }),
    {
        match allocated {
            Ok(port) => Ok(Port { port, has_receive: true, has_send: false }),
            Err(error) => Err(error),
        }
    }

    /// The name of the port.
    pub fn as_raw_port(&self) -> (port: u32)
        ensures
            port == self.port,
    {
        self.port
    }

    /// The port with the right to send that was made from a port with the right to receive:
    /// `extracted` holds its name and the type of its right.
    pub fn make_sender(extracted: Result<(u32, u32), Error>) -> (result: Result<Port, Error>)
        ensures
            result == sender(extracted),
    {
        match extracted {
            Ok((port, right)) => {
                if right != MACH_MSG_TYPE_PORT_SEND {
                    return Err(Error::Custom { kind: ErrorKind::Other, message: WRONG_RIGHT });
                }
                Ok(Port { port, has_receive: false, has_send: true })
            },
            Err(error) => Err(error),
        }
    }

    /// Directs a message to the port; what is to be sent is its size in bytes, with no time limit.
    pub fn send(&self, msg: &mut PortMsg) -> (arguments: SendArguments)
        ensures
            final(msg)@ == with_field(old(msg)@, 8, self.port),
            final(msg).room() == old(msg).room(),
            arguments == (SendArguments {
                flags: MACH_SEND_MSG,
                send_size: final(msg)@.len() as u32,
                timeout: MACH_MSG_TIMEOUT_NONE,
            }),
    {
        msg.set_remote_port(self.port);
        SendArguments {
            flags: MACH_SEND_MSG,
            send_size: msg.size(),
            timeout: MACH_MSG_TIMEOUT_NONE,
        }
    }

    /// Takes in whether the message was sent; where it was, it is directed to no port any more.
    pub fn sent(msg: &mut PortMsg, answer: Result<(), Error>) -> (result: Result<(), Error>)
        ensures
            result == answer,
            final(msg)@ == (if answer is Ok {
                with_field(old(msg)@, 8, MACH_PORT_NULL)
            } else {
                old(msg)@
            }),
            final(msg).room() == old(msg).room(),
    {
        if answer.is_ok() {
            msg.set_remote_port(MACH_PORT_NULL);
        }
        answer
    }

    /// What receiving asks for: a message of at most `capacity` bytes. Where a limit in time is set
    /// (`limited`) only a message that is there already is received.
    pub fn recv(&self, capacity: usize, limited: bool) -> (arguments: RecvArguments)
        ensures
            arguments == (RecvArguments {
                flags: if limited {
                    MACH_RCV_MSG | MACH_RCV_LARGE | MACH_RCV_TIMEOUT
                } else {
                    MACH_RCV_MSG | MACH_RCV_LARGE
                },
                receive_limit: capacity,
                port: self.port,
                timeout: MACH_MSG_TIMEOUT_NONE,
            }),
    {
        let mut flags: u32 = MACH_RCV_MSG | MACH_RCV_LARGE;
        if limited {
            flags = flags | MACH_RCV_TIMEOUT;
        }
        RecvArguments {
            flags,
            receive_limit: capacity,
            port: self.port,
            timeout: MACH_MSG_TIMEOUT_NONE,
        }
    }

    /// The rights that are given up with the port: that to receive, then that to send.
    pub open spec fn spec_rights(self) -> Seq<u32> {
        (if self.has_receive {
            seq![MACH_PORT_RIGHT_RECEIVE]
        } else {
            Seq::empty()
        }) + (if self.has_send {
            seq![MACH_PORT_RIGHT_SEND]
        } else {
            Seq::empty()
        })
    }

    /// The rights that are given up with the port: that to receive, then that to send.
    pub fn rights(&self) -> (rights: Vec<u32>)
        ensures
            rights@ == self.spec_rights(),
    {
        let mut rights: Vec<u32> = Vec::new();
        if self.has_receive {
            rights.push(MACH_PORT_RIGHT_RECEIVE);
        }
        if self.has_send {
            rights.push(MACH_PORT_RIGHT_SEND);
        }
        rights
    }
}

/// Whether giving up a right went as it should. The right to send may be gone before, with the
/// receiver.
pub fn right_released(right: u32, code: u32) -> (released: bool)
    ensures
        released == (code == KERN_SUCCESS || (right == MACH_PORT_RIGHT_SEND && code
            == KERN_INVALID_RIGHT)),
{
    code == KERN_SUCCESS || (right == MACH_PORT_RIGHT_SEND && code == KERN_INVALID_RIGHT)
}

/// A port that was allocated carries the right to receive and no other; one that was made from it
/// carries the right to send and no other, and comes about only where the kernel names the right as
/// one to send.
pub proof fn law_ports_carry_one_right(port: u32, right: u32, error: Error)
    ensures
        receiver(port).port == port,
        receiver(port).has_receive && !receiver(port).has_send,
        sender(Ok((port, right))) is Ok <==> right == 17,
        right == 17 ==> sender(Ok((port, right)))->Ok_0.port == port && sender(
            Ok((port, right)),
        )->Ok_0.has_send && !sender(Ok((port, right)))->Ok_0.has_receive,
        right != 17 ==> sender(Ok((port, right))) == Err::<Port, Error>(
            Error::Custom { kind: ErrorKind::Other, message: WRONG_RIGHT },
        ),
        sender(Err(error)) == Err::<Port, Error>(error),
{
}

/// The rights that are given up with a port are those that it carries, each once, that to receive
/// first.
pub proof fn law_rights_are_given_up_once(port: Port)
    ensures
        port.spec_rights().contains(1) <==> port.has_receive,
        port.spec_rights().contains(0) <==> port.has_send,
        port.spec_rights().len() == (if port.has_receive {
            1int
        } else {
            0
        }) + (if port.has_send {
            1int
        } else {
            0
        }),
        port.has_receive ==> port.spec_rights()[0] == 1,
{
    if port.has_receive {
        assert(port.spec_rights()[0] == 1);
        if port.has_send {
            assert(port.spec_rights()[1] == 0);
        }
    } else if port.has_send {
        assert(port.spec_rights()[0] == 0);
    }
}

} // verus!
