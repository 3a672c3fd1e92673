//! A channel over two mach ports.
#[allow(unused_imports)]
use vstd::math::max;
use vstd::prelude::*;

use super::frame::{decode, encode_length, encode_padding, LENGTH_SIZE};
#[allow(unused_imports)]
use super::frame::{frame, law_frame_round_trip, padding, unframed};
#[allow(unused_imports)]
use super::message::{
    declared_size, empty_message, inline_data_of, is_complex, lemma_empty_message, remote_port_of,
    with_field, MACH_PORT_NULL,
};
use super::message::{START_SIZE, TRAILER_SIZE};
use super::message::PortMsgBuffer;
use super::port::Port;
#[allow(unused_imports)]
use super::port::{receiver, sender, MACH_MSG_TYPE_PORT_SEND};
#[allow(unused_imports)]
use crate::endian::{law_le_bytes_round_trip, le_bytes, lemma_le_bytes_len, lemma_le_room};
use crate::error::{Error, ErrorKind};
use crate::queue::kqueue::mach::PortRegistration;
use crate::queue::kqueue::registered::Registered;
#[allow(unused_imports)]
use crate::queue::kqueue::registered::PORT_REGISTERED;

verus! {

/// One end of a channel that is not registered with an event queue yet.
#[derive(PartialEq, Eq, Debug)]
pub struct PreChannel {
    pub tx: Port,
    pub rx: Port,
}

/// One end of a channel.
#[derive(Debug)]
pub struct Channel {
    pub tx: Port,
    pub rx: Port,
    pub rx_registration: PortRegistration,
    pub msg_buffer: Option<PortMsgBuffer>,
}

/// What receiving comes to.
#[derive(PartialEq, Eq, Debug)]
pub enum Received {
    /// There is no message: the registration has to be told, and the task subscribed.
    ClearReady,
    /// The length of the message that was received, or the error.
    Over(Result<usize, Error>),
}

/// A step of making a channel, or what it came to: its two ends.
#[derive(PartialEq, Eq, Debug)]
pub enum ChannelStep {
    /// Make a port with the right to receive.
    AllocateFirst,
    /// Make another.
    AllocateSecond { first: Port },
    /// Make a right to send to the first port.
    ExtractFirst { first: Port, second: Port },
    /// Make a right to send to the second port.
    ExtractSecond { first: Port, second: Port, to_first: Port },
    Over(PreChannel, PreChannel),
    /// It failed: the ports that were made until then are to be given up.
    Failed {
        error: Error,
        made_first: Option<Port>,
        made_second: Option<Port>,
        made_sender: Option<Port>,
    },
}

/// The answer of the system to a step.
#[derive(Clone, Copy, PartialEq, Eq, Debug)]
pub enum ChannelAnswer {
    /// The name of the port that was made.
    Allocated(Result<u32, Error>),
    /// The name of the right that was made, and its type.
    Extracted(Result<(u32, u32), Error>),
}

impl ChannelStep {
    /// Whether an answer is one to this step.
    pub open spec fn answered_by(self, answer: ChannelAnswer) -> bool {
        match self {
            ChannelStep::AllocateFirst => answer is Allocated,
            ChannelStep::AllocateSecond { .. } => answer is Allocated,
            ChannelStep::ExtractFirst { .. } => answer is Extracted,
            ChannelStep::ExtractSecond { .. } => answer is Extracted,
            _ => false,
        }
    }

    /// The step that follows: the first failure ends it. Each end sends to where the other receives.
    pub open spec fn after(self, answer: ChannelAnswer) -> ChannelStep {
        match (self, answer) {
            (ChannelStep::AllocateFirst, ChannelAnswer::Allocated(made)) => match made {
                Ok(port) => ChannelStep::AllocateSecond { first: receiver(port) },
                Err(error) => ChannelStep::Failed {
                    error,
                    made_first: None,
                    made_second: None,
                    made_sender: None,
                },
            },
            (ChannelStep::AllocateSecond { first }, ChannelAnswer::Allocated(made)) => match made {
                Ok(port) => ChannelStep::ExtractFirst { first, second: receiver(port) },
                Err(error) => ChannelStep::Failed {
                    error,
                    made_first: Some(first),
                    made_second: None,
                    made_sender: None,
                },
            },
            (
                ChannelStep::ExtractFirst { first, second },
                ChannelAnswer::Extracted(made),
            ) => match sender(made) {
                Ok(to_first) => ChannelStep::ExtractSecond { first, second, to_first },
                Err(error) => ChannelStep::Failed {
                    error,
                    made_first: Some(first),
                    made_second: Some(second),
                    made_sender: None,
                },
            },
            (
                ChannelStep::ExtractSecond { first, second, to_first },
                ChannelAnswer::Extracted(made),
            ) => match sender(made) {
                Ok(to_second) => ChannelStep::Over(
                    PreChannel { tx: to_first, rx: second },
                    PreChannel { tx: to_second, rx: first },
                ),
                Err(error) => ChannelStep::Failed {
                    error,
                    made_first: Some(first),
                    made_second: Some(second),
                    made_sender: Some(to_first),
                },
            },
            _ => self,
        }
    }

    /// The step that follows the answer.
    pub fn next(self, answer: ChannelAnswer) -> (step: ChannelStep)
        requires
            self.answered_by(answer),
        ensures
            step == self.after(answer),
    {
        match (self, answer) {
            (ChannelStep::AllocateFirst, ChannelAnswer::Allocated(made)) => match Port::new(made) {
                Ok(first) => ChannelStep::AllocateSecond { first },
                Err(error) => ChannelStep::Failed {
                    error,
                    made_first: None,
                    made_second: None,
                    made_sender: None,
                },
            },
            (ChannelStep::AllocateSecond { first }, ChannelAnswer::Allocated(made)) => match Port::new(
                made,
            ) {
                Ok(second) => ChannelStep::ExtractFirst { first, second },
                Err(error) => ChannelStep::Failed {
                    error,
                    made_first: Some(first),
                    made_second: None,
                    made_sender: None,
                },
            },
            (
                ChannelStep::ExtractFirst { first, second },
                ChannelAnswer::Extracted(made),
            ) => match Port::make_sender(made) {
                Ok(to_first) => ChannelStep::ExtractSecond { first, second, to_first },
                Err(error) => ChannelStep::Failed {
                    error,
                    made_first: Some(first),
                    made_second: Some(second),
                    made_sender: None,
                },
            },
            (
                ChannelStep::ExtractSecond { first, second, to_first },
                ChannelAnswer::Extracted(made),
            ) => match Port::make_sender(made) {
                Ok(to_second) => ChannelStep::Over(
                    PreChannel { tx: to_first, rx: second },
                    PreChannel { tx: to_second, rx: first },
                ),
                Err(error) => ChannelStep::Failed {
                    error,
                    made_first: Some(first),
                    made_second: Some(second),
                    made_sender: Some(to_first),
                },
            },
            (step, _) => step,
        }
    }
}

/// A channel is wired crosswise: of the two ports that were made, each end receives at one, and
/// sends over the right that was made to the other. So each sends to where the other receives.
pub proof fn law_pair_is_wired_crosswise(a: u32, b: u32, to_a: u32, to_b: u32)
    ensures
        ChannelStep::AllocateFirst.after(ChannelAnswer::Allocated(Ok(a))).after(
            ChannelAnswer::Allocated(Ok(b)),
        ).after(
            ChannelAnswer::Extracted(Ok((to_a, MACH_MSG_TYPE_PORT_SEND))),
        ).after(ChannelAnswer::Extracted(Ok((to_b, MACH_MSG_TYPE_PORT_SEND)))) == ChannelStep::Over(
            (PreChannel {
                tx: Port { port: to_a, has_receive: false, has_send: true },
                rx: receiver(b),
            }),
            (PreChannel {
                tx: Port { port: to_b, has_receive: false, has_send: true },
                rx: receiver(a),
            }),
        ),
{
}

impl PreChannel {
    /// The first step of making a channel.
    pub fn pair() -> (step: ChannelStep)
        ensures
            step == ChannelStep::AllocateFirst,
    {
        ChannelStep::AllocateFirst
    }

    /// Registers the end with an event queue, which fails where its receiving port is registered
    /// already.
    pub fn register(self, registered: &mut Registered) -> (result: Result<Channel, Error>)
        ensures
            final(registered).ports() == old(registered).ports().insert(self.rx.port),
            final(registered).fds() == old(registered).fds(),
            result == (if old(registered).ports().contains(self.rx.port) {
                Err(Error::Custom { kind: ErrorKind::AddrInUse, message: PORT_REGISTERED })
            } else {
                Ok(
                    Channel {
                        tx: self.tx,
                        rx: self.rx,
                        rx_registration: PortRegistration { port: self.rx.port, waker: None },
                        msg_buffer: None,
                    },
                )
            }),
    {
        match registered.register_mach_port(self.rx.as_raw_port()) {
            Ok(rx_registration) => Ok(
                Channel { tx: self.tx, rx: self.rx, rx_registration, msg_buffer: None },
            ),
            Err(error) => Err(error),
        }
    }
}

/// How much room the buffer that is acquired from a slot has.
pub open spec fn acquired_room(msg_buffer: Option<PortMsgBuffer>) -> int {
    match msg_buffer {
        Some(kept) => kept.room() as int,
        None => START_SIZE + TRAILER_SIZE,
    }
}

/// The buffer in the slot, which is made where there is none; either way it holds a message without
/// data.
pub fn acquire_buffer(msg_buffer: &mut Option<PortMsgBuffer>) -> (buffer: &mut PortMsgBuffer)
    ensures
        buffer@ == empty_message(),
        buffer.room() == acquired_room(*old(msg_buffer)),
        *final(msg_buffer) == Some(*final(buffer)),
{
    let kept: PortMsgBuffer = match msg_buffer.take() {
        Some(kept) => {
            let mut kept: PortMsgBuffer = kept;
            kept.reset();
            kept
        },
        None => PortMsgBuffer::new(),
    };
    msg_buffer.insert(kept)
}

/// The mach message that carries a message of a channel: it is directed to no port, and its size is
/// that of a message without data and of the frame.
pub open spec fn carrier(message: Seq<u8>) -> Seq<u8> {
    with_field(empty_message(), 4, (START_SIZE + frame(message).len()) as u32) + frame(message)
}

proof fn lemma_field_replaced(bytes: Seq<u8>, first: u32, more: Seq<u8>, second: u32)
    requires
        bytes.len() >= START_SIZE,
    ensures
        with_field(with_field(bytes, 4, first) + more, 4, second) == with_field(bytes, 4, second)
            + more,
{
    lemma_le_bytes_len(first as nat, 4);
    lemma_le_bytes_len(second as nat, 4);
    assert(with_field(with_field(bytes, 4, first) + more, 4, second) =~= with_field(
        bytes,
        4,
        second,
    ) + more);
}

impl Channel {
    /// What else an end holds stays as it is.
    pub open spec fn same_end(self, other: Channel) -> bool {
        &&& self.tx == other.tx
        &&& self.rx == other.rx
        &&& self.rx_registration == other.rx_registration
    }

    /// Composes the mach message that carries a message of the channel, in the buffer of the
    /// channel. It has to fit the size of a mach message.
    pub fn compose(&mut self, message: &[u8])
        requires
            START_SIZE + frame(message@).len() <= u32::MAX,
        ensures
            final(self).same_end(*old(self)),
            final(self).msg_buffer is Some,
            final(self).msg_buffer->0@ == carrier(message@),
            final(self).msg_buffer->0.room() == max(
                acquired_room(old(self).msg_buffer),
                carrier(message@).len() as int,
            ),
            !is_complex(final(self).msg_buffer->0@),
            remote_port_of(final(self).msg_buffer->0@) == MACH_PORT_NULL,
            final(self).msg_buffer->0@.len() >= START_SIZE,
            inline_data_of(final(self).msg_buffer->0@) == frame(message@),
    {
        let buffer: &mut PortMsgBuffer = acquire_buffer(&mut self.msg_buffer);
        let length: Vec<u8> = encode_length(message.len());
        let ghost empty = empty_message();
        proof {
            lemma_empty_message();
            lemma_le_bytes_len(message@.len(), LENGTH_SIZE as nat);
        }
        buffer.extend_inline_data(length.as_slice());
        let ghost size = buffer@.len() as u32;
        buffer.extend_inline_data(message);
        proof {
            lemma_field_replaced(empty, size, length@, buffer@.len() as u32);
            assert(with_field(empty, 4, buffer@.len() as u32) + length@ + message@ == with_field(
                empty,
                4,
                buffer@.len() as u32,
            ) + (length@ + message@));
        }
        let ghost size = buffer@.len() as u32;
        // A mach message has to end at a multiple of four bytes.
        let zeros: Vec<u8> = encode_padding(buffer.msg().inline_data().len());
        proof {
            assert(frame(message@) == length@ + message@ + zeros@);
        }
        if zeros.len() > 0 {
            buffer.extend_inline_data(zeros.as_slice());
            proof {
                lemma_field_replaced(empty, size, length@ + message@, buffer@.len() as u32);
                assert(with_field(empty, 4, buffer@.len() as u32) + (length@ + message@) + zeros@
                    == with_field(empty, 4, buffer@.len() as u32) + frame(message@));
            }
        } else {
            assert(frame(message@) == length@ + message@);
        }
    }

    /// Makes room for receiving into a buffer of `room` bytes, and returns how many bytes can be
    /// received: the mach message of every message that fits the buffer, and its trailer.
    pub fn prepare_receive(&mut self, room: usize) -> (capacity: usize)
        requires
            START_SIZE + LENGTH_SIZE + room + padding(room as nat) + TRAILER_SIZE <= isize::MAX,
        ensures
            final(self).same_end(*old(self)),
            final(self).msg_buffer is Some,
            final(self).msg_buffer->0@ == empty_message(),
            final(self).msg_buffer->0.room() == capacity,
            capacity == max(
                acquired_room(old(self).msg_buffer),
                START_SIZE + LENGTH_SIZE + room + padding(room as nat) + TRAILER_SIZE,
            ),
            forall|message: Seq<u8>|
                message.len() <= room ==> (#[trigger] carrier(message)).len() + TRAILER_SIZE
                    <= capacity,
    {
        let buffer: &mut PortMsgBuffer = acquire_buffer(&mut self.msg_buffer);
        let zeros: Vec<u8> = encode_padding(LENGTH_SIZE + room);
        proof {
            lemma_empty_message();
        }
        buffer.reserve_inline(LENGTH_SIZE + room + zeros.len() + TRAILER_SIZE);
        let capacity: usize = buffer.msg().capacity();
        proof {
            assert forall|message: Seq<u8>| message.len() <= room implies (#[trigger] carrier(
                message,
            )).len() + TRAILER_SIZE <= capacity by {
                lemma_le_bytes_len(message.len(), LENGTH_SIZE as nat);
                lemma_le_bytes_len((START_SIZE + frame(message).len()) as u32 as nat, 4);
            }
        }
        capacity
    }

    /// Takes in what receiving for the buffer `dest` gave: the bytes of a mach message that carries
    /// no descriptor, or the error. Where no message was there in time, the task has to wait.
    pub fn received(&mut self, answer: Result<Vec<u8>, Error>, dest: &mut [u8]) -> (result:
        Received)
        requires
            answer matches Ok(bytes) ==> {
                &&& START_SIZE <= declared_size(bytes@) <= bytes@.len()
                &&& !is_complex(bytes@)
            },
        ensures
            final(self).same_end(*old(self)),
            final(self).msg_buffer is Some,
            final(self).msg_buffer->0@ == (match answer {
                Ok(bytes) => bytes@.take(declared_size(bytes@) as int),
                Err(error) => empty_message(),
            }),
            final(self).msg_buffer->0.room() == (match answer {
                Ok(bytes) => max(acquired_room(old(self).msg_buffer), bytes@.len() as int),
                Err(error) => acquired_room(old(self).msg_buffer),
            }),
            match answer {
                Ok(bytes) => {
                    let data = bytes@.subrange(
                        START_SIZE as int,
                        declared_size(bytes@) as int,
                    );
                    &&& result is Over
                    &&& match unframed(data, old(dest)@.len()) {
                        Ok(length) => {
                            &&& result->0 is Ok
                            &&& result->0->Ok_0 == length
                            &&& final(dest)@ == data.subrange(
                                LENGTH_SIZE as int,
                                LENGTH_SIZE + length as int,
                            ) + old(
                                dest,
                            )@.skip(length as int)
                        },
                        Err(error) => {
                            &&& result->0 == Err::<usize, Error>(error)
                            &&& final(dest)@ == old(dest)@
                        },
                    }
                },
                Err(error) => {
                    &&& result == (if error.spec_kind() == ErrorKind::TimedOut {
                        Received::ClearReady
                    } else {
                        Received::Over(Err(error))
                    })
                    &&& final(dest)@ == old(dest)@
                },
            },
    {
        let buffer: &mut PortMsgBuffer = acquire_buffer(&mut self.msg_buffer);
        match answer {
            Ok(bytes) => {
                let ghost whole = bytes@;
                let ghost size = declared_size(whole) as int;
                buffer.received(bytes);
                proof {
                    assert(buffer@.subrange(0, 4) == whole.subrange(0, 4));
                    assert(buffer@.skip(START_SIZE as int) == whole.subrange(
                        START_SIZE as int,
                        size,
                    ));
                }
                let result: Result<usize, Error> = decode(buffer.msg().inline_data(), dest);
                Received::Over(result)
            },
            Err(error) => {
                if error.kind() == ErrorKind::TimedOut {
                    Received::ClearReady
                } else {
                    Received::Over(Err(error))
                }
            },
        }
    }
}

/// A channel delivers what was sent over it: where a mach message that carries a message of the
/// channel arrives with its size and its data as they were, whatever became of the rest of its
/// header and whatever follows it, the receiver gets that message, whole and nothing more.
pub proof fn law_channel_delivers_message(
    sent: Seq<u8>,
    arrived: Seq<u8>,
    message: Seq<u8>,
    room: nat,
)
    requires
        sent.len() >= START_SIZE,
        inline_data_of(sent) == frame(message),
        arrived.len() >= sent.len(),
        declared_size(arrived) == sent.len(),
        arrived.subrange(START_SIZE as int, sent.len() as int) == inline_data_of(sent),
        message.len() <= room,
        message.len() <= usize::MAX,
    ensures
        ({
            let data = arrived.subrange(START_SIZE as int, declared_size(arrived) as int);
            &&& unframed(data, room) == Ok::<nat, Error>(message.len())
            &&& data.subrange(LENGTH_SIZE as int, LENGTH_SIZE + message.len() as int) == message
        }),
{
    law_frame_round_trip(message, room);
}

/// A failure ends the making of a channel with its own error, and hands back the ports that were made
/// until then, and no others: none of them is lost, and none is given up twice.
pub proof fn law_failed_channel_hands_its_ports_back(a: u32, b: u32, to_a: u32, error: Error)
    ensures
        ({
            let second = ChannelStep::AllocateFirst.after(ChannelAnswer::Allocated(Ok(a)));
            let third = second.after(ChannelAnswer::Allocated(Ok(b)));
            let fourth = third.after(ChannelAnswer::Extracted(Ok((to_a, 17))));
            &&& ChannelStep::AllocateFirst.after(ChannelAnswer::Allocated(Err(error))) == (
            ChannelStep::Failed { error, made_first: None, made_second: None, made_sender: None })
            &&& second.after(ChannelAnswer::Allocated(Err(error))) == (ChannelStep::Failed {
                error,
                made_first: Some(Port { port: a, has_receive: true, has_send: false }),
                made_second: None,
                made_sender: None,
            })
            &&& third.after(ChannelAnswer::Extracted(Err(error))) == (ChannelStep::Failed {
                error,
                made_first: Some(Port { port: a, has_receive: true, has_send: false }),
                made_second: Some(Port { port: b, has_receive: true, has_send: false }),
                made_sender: None,
            })
            &&& fourth.after(ChannelAnswer::Extracted(Err(error))) == (ChannelStep::Failed {
                error,
                made_first: Some(Port { port: a, has_receive: true, has_send: false }),
                made_second: Some(Port { port: b, has_receive: true, has_send: false }),
                made_sender: Some(Port { port: to_a, has_receive: false, has_send: true }),
            })
        }),
{
}

/// A right of another type than one to send is refused, whichever of the two it was to be, and counts
/// as a failure.
pub proof fn law_wrong_right_makes_no_channel(a: u32, b: u32, to_a: u32, name: u32, right: u32)
    requires
        right != 17,
    ensures
        ({
            let third = ChannelStep::AllocateFirst.after(ChannelAnswer::Allocated(Ok(a))).after(
                ChannelAnswer::Allocated(Ok(b)),
            );
            let fourth = third.after(ChannelAnswer::Extracted(Ok((to_a, 17))));
            &&& third.after(ChannelAnswer::Extracted(Ok((name, right)))) is Failed
            &&& fourth.after(ChannelAnswer::Extracted(Ok((name, right)))) is Failed
        }),
{
}

/// The mach message that carries a message is one that goes to no port yet and carries no descriptor,
/// says its own size, and has the frame of the message for its data.
pub proof fn law_carrier_is_a_whole_message(message: Seq<u8>)
    requires
        START_SIZE + frame(message).len() <= u32::MAX,
    ensures
        carrier(message).len() == 28 + frame(message).len(),
        declared_size(carrier(message)) == carrier(message).len(),
        remote_port_of(carrier(message)) == 0,
        !is_complex(carrier(message)),
        inline_data_of(carrier(message)) == frame(message),
{
    let size = (START_SIZE + frame(message).len()) as u32;
    let start = with_field(empty_message(), 4, size);
    lemma_empty_message();
    lemma_le_bytes_len(size as nat, 4);
    lemma_le_room();
    law_le_bytes_round_trip(size as nat, 4);
    assert(carrier(message).subrange(0, 4) == empty_message().subrange(0, 4));
    assert(carrier(message).subrange(4, 8) == le_bytes(size as nat, 4));
    assert(carrier(message).subrange(8, 12) == empty_message().subrange(8, 12));
    assert(carrier(message).skip(28) == frame(message));
}

/// A buffer that is acquired has the room of the one that was kept, and that of a message without
/// data and its trailer where none was.
pub proof fn law_kept_room_is_acquired(kept: PortMsgBuffer)
    ensures
        acquired_room(Some(kept)) == kept.room(),
        acquired_room(None) == 28 + 8,
{
}

} // verus!
