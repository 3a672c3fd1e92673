//! Mach messages, as the bytes that travel.
#[allow(unused_imports)]
use vstd::math::max;
use vstd::prelude::*;
use vstd::slice::slice_subrange;
use vstd::string::*;

use crate::endian::{append_le, read_le};
#[allow(unused_imports)]
use crate::endian::{
    law_le_bytes_round_trip, law_lowest_byte_comes_first, le_bytes, le_room, le_value,
    lemma_le_bytes_len, lemma_le_room,
};
#[allow(unused_imports)]
use crate::text::{byte_list, decimal_text};
use crate::text::{append_byte_list, append_decimal};

verus! {

/// A send right that is copied from the sender's.
pub const MACH_MSG_TYPE_COPY_SEND: u32 = 19;

/// The bit of a message that carries descriptors.
pub const MACH_MSGH_BITS_COMPLEX: u32 = 0x8000_0000;

/// No port.
pub const MACH_PORT_NULL: u32 = 0;

/// The size of the header: the bits, the size, the remote, local and voucher ports, and the
/// identifier, four bytes each.
pub const HEADER_SIZE: usize = 24;

/// The size of the header and of the count of descriptors that follows it.
pub const START_SIZE: usize = 28;

/// The size of what the system appends to a message that is received.
pub const TRAILER_SIZE: usize = 8;

/// The number at a place of the header.
pub open spec fn field(bytes: Seq<u8>, at: int) -> nat {
    le_value(bytes.subrange(at, at + 4))
}

/// The bytes with another number at a place of the header.
pub open spec fn with_field(bytes: Seq<u8>, at: int, value: u32) -> Seq<u8> {
    bytes.take(at) + le_bytes(value as nat, 4) + bytes.skip(at + 4)
}

/// The size that the header gives.
pub open spec fn declared_size(bytes: Seq<u8>) -> nat {
    field(bytes, 4)
}

/// The port that the message goes to.
pub open spec fn remote_port_of(bytes: Seq<u8>) -> nat {
    field(bytes, 8)
}

/// Whether the message carries descriptors.
pub open spec fn is_complex(bytes: Seq<u8>) -> bool {
    (field(bytes, 0) as u32) & MACH_MSGH_BITS_COMPLEX != 0
}

/// The data of a message that carries no descriptor.
pub open spec fn inline_data_of(bytes: Seq<u8>) -> Seq<u8> {
    bytes.skip(START_SIZE as int)
}

/// A message without data.
pub open spec fn empty_message() -> Seq<u8> {
    le_bytes(MACH_MSG_TYPE_COPY_SEND as nat, 4) + le_bytes(START_SIZE as nat, 4) + Seq::new(
        20,
        |at: int| 0u8,
    )
}

/// The text that shows a message.
pub open spec fn message_text(bytes: Seq<u8>) -> Seq<char> {
    "PortMsg { header: { complex: "@ + (if is_complex(bytes) {
        "true"@
    } else {
        "false"@
    }) + ", size: "@ + decimal_text(bytes.len() as u32) + " } inline_data: ["@ + byte_list(
        inline_data_of(bytes),
    ) + "]}"@
}

/// A mach message: it has a header, which gives its size.
#[derive(Debug)]
pub struct PortMsg {
    bytes: Vec<u8>,
    // How many bytes the memory of `bytes` was asked to hold.
    room: usize,
}

impl View for PortMsg {
    type V = Seq<u8>;

    closed spec fn view(&self) -> Seq<u8> {
        self.bytes@
    }
}

fn read_field(bytes: &Vec<u8>, at: usize) -> (value: u32)
    requires
        at + 4 <= bytes@.len(),
    ensures
        value == field(bytes@, at as int),
{
    proof {
        lemma_le_room();
    }
    read_le(bytes.as_slice(), at, 4) as u32
}

fn write_field(bytes: &mut Vec<u8>, at: usize, value: u32)
    requires
        at + 4 <= old(bytes)@.len(),
    ensures
        final(bytes)@ == with_field(old(bytes)@, at as int, value),
{
    let ghost before = bytes@;
    let mut encoded: Vec<u8> = Vec::new();
    append_le(&mut encoded, value as u64, 4);
    proof {
        lemma_le_bytes_len(value as nat, 4);
    }
    assert(encoded@ == le_bytes(value as nat, 4));
    let length: usize = bytes.len();
    for index in 0..4usize
        invariant
            encoded@.len() == 4,
            at + 4 <= length,
            length == before.len(),
            bytes@.len() == before.len(),
            forall|place: int|
                0 <= place < before.len() ==> bytes@[place] == (if at <= place < at + index {
                    encoded@[place - at]
                } else {
                    before[place]
                }),
    {
        bytes.set(at + index, encoded[index]);
    }
}

impl PortMsg {
    #[verifier::type_invariant]
    spec fn wf(self) -> bool {
        &&& self.bytes@.len() >= HEADER_SIZE
        &&& declared_size(self.bytes@) == self.bytes@.len()
        &&& self.bytes@.len() <= self.room
        &&& START_SIZE + TRAILER_SIZE <= self.room
    }

    /// How many bytes there is room for without the message moving. There is room for the message,
    /// and for a message without data and its trailer. The allocator may have given more.
    pub closed spec fn room(&self) -> usize {
        self.room
    }

    fn empty() -> (msg: PortMsg)
        ensures
            msg@ == empty_message(),
            msg.room() == START_SIZE + TRAILER_SIZE,
    {
        // There is always room for the trailer, in case the buffer is received into.
        let mut bytes: Vec<u8> = Vec::with_capacity(START_SIZE + TRAILER_SIZE);
        append_empty(&mut bytes);
        proof {
            lemma_empty_message();
        }
        PortMsg { bytes, room: START_SIZE + TRAILER_SIZE }
    }

    /// Takes the bytes out, with the room that they have, and leaves a message without data behind.
    fn take_bytes(&mut self) -> (taken: (Vec<u8>, usize))
        ensures
            taken.0@ == old(self)@,
            taken.1 == old(self).room(),
            taken.0@.len() >= HEADER_SIZE,
            declared_size(taken.0@) == taken.0@.len(),
            taken.0@.len() <= taken.1,
            START_SIZE + TRAILER_SIZE <= taken.1,
            final(self)@ == empty_message(),
    {
        proof {
            use_type_invariant(&*self);
        }
        let mut taken: PortMsg = PortMsg::empty();
        core::mem::swap(&mut taken, self);
        (taken.bytes, taken.room)
    }

    /// How many bytes can be received in place of the message.
    pub fn capacity(&self) -> (capacity: usize)
        ensures
            capacity == self.room(),
            self@.len() <= capacity,
            START_SIZE + TRAILER_SIZE <= capacity,
    {
        proof {
            use_type_invariant(self);
        }
        self.room
    }

    /// Whether the message carries descriptors.
    pub fn complex(&self) -> (complex: bool)
        ensures
            complex == is_complex(self@),
    {
        proof {
            use_type_invariant(self);
        }
        read_field(&self.bytes, 0) & MACH_MSGH_BITS_COMPLEX != 0
    }

    /// The size that the header gives, which is that of the message.
    pub fn size(&self) -> (size: u32)
        ensures
            size == declared_size(self@),
            size == self@.len(),
    {
        proof {
            use_type_invariant(self);
        }
        read_field(&self.bytes, 4)
    }

    /// The port that the message goes to.
    pub fn remote_port(&self) -> (port: u32)
        ensures
            port == remote_port_of(self@),
    {
        proof {
            use_type_invariant(self);
        }
        read_field(&self.bytes, 8)
    }

    /// Directs the message to a port. Nothing else of it changes.
    pub fn set_remote_port(&mut self, port: u32)
        ensures
            final(self)@ == with_field(old(self)@, 8, port),
            final(self).room() == old(self).room(),
            final(self)@.len() == old(self)@.len(),
            remote_port_of(final(self)@) == port,
            is_complex(final(self)@) == is_complex(old(self)@),
            old(self)@.len() >= START_SIZE ==> inline_data_of(final(self)@) == inline_data_of(
                old(self)@,
            ),
    {
        let (mut bytes, room): (Vec<u8>, usize) = self.take_bytes();
        let ghost before = bytes@;
        write_field(&mut bytes, 8, port);
        proof {
            lemma_le_bytes_len(port as nat, 4);
            lemma_le_room();
            law_le_bytes_round_trip(port as nat, 4);
            assert(bytes@.subrange(0, 4) == before.subrange(0, 4));
            assert(bytes@.subrange(4, 8) == before.subrange(4, 8));
            assert(bytes@.subrange(8, 12) == le_bytes(port as nat, 4));
            assert(before.len() >= 28 ==> bytes@.skip(28) == before.skip(28));
        }
        *self = PortMsg { bytes, room };
    }

    /// The data of a message that carries no descriptor and has the count of descriptors.
    pub fn inline_data(&self) -> (data: &[u8])
        requires
            !is_complex(self@),
            self@.len() >= START_SIZE,
        ensures
            data@ == inline_data_of(self@),
    {
        let data: &[u8] = slice_subrange(self.bytes.as_slice(), START_SIZE, self.bytes.len());
        assert(data@ == self@.skip(START_SIZE as int));
        data
    }

    /// Shows a message that carries no descriptor.
    pub fn text(&self) -> (text: String)
        requires
            !is_complex(self@),
            self@.len() >= START_SIZE,
        ensures
            text@ == message_text(self@),
    {
        let mut text: String = String::from_str("PortMsg { header: { complex: ");
        if self.complex() {
            text.append("true");
        } else {
            text.append("false");
        }
        text.append(", size: ");
        append_decimal(&mut text, self.size());
        text.append(" } inline_data: [");
        append_byte_list(&mut text, self.inline_data());
        text.append("]}");
        text
    }

    /// The bytes of the message.
    pub fn bytes(&self) -> (bytes: &[u8])
        ensures
            bytes@ == self@,
    {
        self.bytes.as_slice()
    }
}

/// A mach message in a buffer that can grow.
#[derive(Debug)]
pub struct PortMsgBuffer {
    msg: PortMsg,
}

impl View for PortMsgBuffer {
    type V = Seq<u8>;

    closed spec fn view(&self) -> Seq<u8> {
        self.msg@
    }
}

impl PortMsgBuffer {
    /// How many bytes there is room for, as in [`PortMsg::room`].
    pub closed spec fn room(&self) -> usize {
        self.msg.room()
    }

    /// A message without data. There is room for a trailer, in case the buffer is received into.
    pub fn new() -> (buffer: PortMsgBuffer)
        ensures
            buffer@ == empty_message(),
            buffer.room() == START_SIZE + TRAILER_SIZE,
    {
        PortMsgBuffer { msg: PortMsg::empty() }
    }

    /// Makes the message one without data again, in the same room.
    pub fn reset(&mut self)
        ensures
            final(self)@ == empty_message(),
            final(self).room() == old(self).room(),
    {
        let (mut bytes, room): (Vec<u8>, usize) = self.msg.take_bytes();
        bytes.clear();
        append_empty(&mut bytes);
        proof {
            lemma_empty_message();
        }
        self.msg = PortMsg { bytes, room };
    }

    /// Makes room for more data after the message, where there is not enough yet. The message stays
    /// as it is. All of it has to fit the memory that a vector can have.
    pub fn reserve_inline(&mut self, additional: usize)
        requires
            old(self)@.len() + additional <= isize::MAX,
        ensures
            final(self)@ == old(self)@,
            final(self).room() == max(old(self).room() as int, old(self)@.len() + additional),
    {
        let (mut bytes, room): (Vec<u8>, usize) = self.msg.take_bytes();
        bytes.reserve(additional);
        let needed: usize = bytes.len() + additional;
        let room: usize = if room < needed {
            needed
        } else {
            room
        };
        self.msg = PortMsg { bytes, room };
    }

    /// Appends data; the size in the header follows.
    pub fn extend_inline_data(&mut self, data: &[u8])
        requires
            old(self)@.len() + data@.len() <= u32::MAX,
        ensures
            final(self)@ == with_field(
                old(self)@,
                4,
                (old(self)@.len() + data@.len()) as u32,
            ) + data@,
            final(self)@.len() == old(self)@.len() + data@.len(),
            final(self).room() == max(old(self).room() as int, final(self)@.len() as int),
            is_complex(final(self)@) == is_complex(old(self)@),
            remote_port_of(final(self)@) == remote_port_of(old(self)@),
            old(self)@.len() >= START_SIZE ==> inline_data_of(final(self)@) == inline_data_of(
                old(self)@,
            ) + data@,
    {
        let size: u32 = self.msg.size() + data.len() as u32;
        let (mut bytes, room): (Vec<u8>, usize) = self.msg.take_bytes();
        let ghost before = bytes@;
        write_field(&mut bytes, 4, size);
        let ghost sized = bytes@;
        bytes.extend_from_slice(data);
        proof {
            lemma_le_bytes_len(size as nat, 4);
            lemma_le_room();
            law_le_bytes_round_trip(size as nat, 4);
            assert(bytes@ == sized + data@);
            assert(bytes@.subrange(0, 4) == before.subrange(0, 4));
            assert(bytes@.subrange(4, 8) == le_bytes(size as nat, 4));
            assert(bytes@.subrange(8, 12) == before.subrange(8, 12));
            assert(before.len() >= 28 ==> bytes@.skip(28) == before.skip(28) + data@);
        }
        let room: usize = if room < bytes.len() {
            bytes.len()
        } else {
            room
        };
        self.msg = PortMsg { bytes, room };
    }

    /// Takes in the bytes that were received: the size in their header says how many of them are
    /// the message. There is as much room as before, and as the bytes had.
    pub fn received(&mut self, bytes: Vec<u8>)
        requires
            HEADER_SIZE <= declared_size(bytes@) <= bytes@.len(),
        ensures
            final(self)@ == bytes@.take(declared_size(bytes@) as int),
            final(self).room() == max(old(self).room() as int, bytes@.len() as int),
    {
        let mut bytes: Vec<u8> = bytes;
        let mut room: usize = self.msg.capacity();
        let ghost before = bytes@;
        if room < bytes.len() {
            room = bytes.len();
        } else {
            bytes.reserve(room - bytes.len());
        }
        let size: u32 = read_field(&bytes, 4);
        bytes.truncate(size as usize);
        assert(bytes@.subrange(4, 8) == before.subrange(4, 8));
        self.msg = PortMsg { bytes, room };
    }

    /// The message in the buffer.
    pub fn msg(&self) -> (msg: &PortMsg)
        ensures
            msg@ == self@,
            msg.room() == self.room(),
    {
        &self.msg
    }

    /// The place of the message in the buffer.
    pub fn msg_mut(&mut self) -> (msg: &mut PortMsg)
        ensures
            msg@ == old(self)@,
            msg.room() == old(self).room(),
            final(self)@ == final(msg)@,
            final(self).room() == final(msg).room(),
    {
        &mut self.msg
    }
}

fn append_empty(bytes: &mut Vec<u8>)
    ensures
        final(bytes)@ == old(bytes)@ + empty_message(),
{
    let ghost before = bytes@;
    append_le(bytes, MACH_MSG_TYPE_COPY_SEND as u64, 4);
    append_le(bytes, START_SIZE as u64, 4);
    let ghost start = bytes@;
    for index in 0..20usize
        invariant
            bytes@ == start + Seq::new(index as nat, |at: int| 0u8),
    {
        bytes.push(0);
    }
    assert(bytes@ == before + empty_message());
}

/// The header of a message without data.
pub proof fn lemma_empty_message()
    ensures
        empty_message().len() == START_SIZE,
        field(empty_message(), 0) == MACH_MSG_TYPE_COPY_SEND,
        declared_size(empty_message()) == START_SIZE,
        remote_port_of(empty_message()) == MACH_PORT_NULL,
        !is_complex(empty_message()),
        inline_data_of(empty_message()) == Seq::<u8>::empty(),
{
    let bytes = empty_message();
    lemma_le_bytes_len(MACH_MSG_TYPE_COPY_SEND as nat, 4);
    lemma_le_bytes_len(START_SIZE as nat, 4);
    lemma_le_room();
    law_le_bytes_round_trip(MACH_MSG_TYPE_COPY_SEND as nat, 4);
    law_le_bytes_round_trip(START_SIZE as nat, 4);
    assert(bytes.subrange(0, 4) == le_bytes(MACH_MSG_TYPE_COPY_SEND as nat, 4));
    assert(bytes.subrange(4, 8) == le_bytes(START_SIZE as nat, 4));
    assert(bytes.subrange(8, 12) == seq![0u8, 0u8, 0u8, 0u8]);
    reveal_with_fuel(le_value, 5);
    assert(seq![0u8, 0u8, 0u8, 0u8].drop_first() == seq![0u8, 0u8, 0u8]);
    assert(seq![0u8, 0u8, 0u8].drop_first() == seq![0u8, 0u8]);
    assert(seq![0u8, 0u8].drop_first() == seq![0u8]);
    assert(seq![0u8].drop_first() == Seq::<u8>::empty());
    assert(19u32 & 0x8000_0000u32 == 0) by (bit_vector);
}

/// The fields of a header keep apart: writing one makes it hold what was written, and leaves the
/// length of the message and every other byte as it was.
pub proof fn law_fields_are_kept_apart(bytes: Seq<u8>, at: int, value: u32, other: int)
    requires
        0 <= at,
        at + 4 <= bytes.len(),
    ensures
        with_field(bytes, at, value).len() == bytes.len(),
        le_value(with_field(bytes, at, value).subrange(at, at + 4)) == value,
        field(with_field(bytes, at, value), at) == value,
        0 <= other < bytes.len() && !(at <= other < at + 4) ==> with_field(bytes, at, value)[other]
            == bytes[other],
{
    lemma_le_bytes_len(value as nat, 4);
    lemma_le_room();
    law_le_bytes_round_trip(value as nat, 4);
    assert(with_field(bytes, at, value).subrange(at, at + 4) == le_bytes(value as nat, 4));
}

/// The header of a message lies at its beginning: the size from the fifth byte on, the port that it
/// goes to from the ninth on, and the data after the 28 bytes of the header and of the count of
/// descriptors.
pub proof fn law_header_lies_at_the_beginning(bytes: Seq<u8>, at: int)
    requires
        bytes.len() >= 28,
    ensures
        declared_size(bytes) == le_value(bytes.subrange(4, 8)),
        remote_port_of(bytes) == le_value(bytes.subrange(8, 12)),
        inline_data_of(bytes).len() == bytes.len() - 28,
        0 <= at < bytes.len() - 28 ==> inline_data_of(bytes)[at] == bytes[28 + at],
{
}

/// A message carries descriptors where the highest bit of its first field is set, which is that of
/// its fourth byte.
pub proof fn law_complex_messages_are_told_by_one_bit(bytes: Seq<u8>)
    requires
        bytes.len() >= 28,
    ensures
        is_complex(bytes) <==> bytes[3] >= 128,
{
    let low = bytes.subrange(0, 3);
    let high = seq![bytes[3]];
    assert(bytes.subrange(0, 4) == low + high);
    law_lowest_byte_comes_first(low, high, bytes[3]);
    lemma_le_value_below(low);
    reveal_with_fuel(le_room, 4);
    let first = field(bytes, 0);
    let rest = le_value(low);
    let top = bytes[3];
    assert(first == rest + 0x100_0000 * top);
    let word = first as u32;
    assert(word & 0x8000_0000 != 0 <==> word >= 0x8000_0000) by (bit_vector);
}

proof fn lemma_le_value_below(bytes: Seq<u8>)
    ensures
        le_value(bytes) < le_room(bytes.len()),
    decreases bytes.len(),
{
    if bytes.len() > 0 {
        lemma_le_value_below(bytes.drop_first());
    }
}

/// The text of a message without descriptors shows its size and each byte of its data.
pub proof fn law_text_shows_size_and_data(bytes: Seq<u8>)
    requires
        28 <= bytes.len() <= u32::MAX,
        bytes[3] < 128,
    ensures
        message_text(bytes) == "PortMsg { header: { complex: "@ + "false"@ + ", size: "@
            + decimal_text(bytes.len() as u32) + " } inline_data: ["@ + byte_list(
            bytes.subrange(28, bytes.len() as int),
        ) + "]}"@,
{
    law_complex_messages_are_told_by_one_bit(bytes);
    assert(bytes.skip(28) == bytes.subrange(28, bytes.len() as int));
}

} // verus!
