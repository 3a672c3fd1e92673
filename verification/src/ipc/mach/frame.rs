//! How a message of a channel lies in the data of a mach message: its length in a word of the
//! machine, the message, and zeros up to a multiple of four.
use vstd::prelude::*;

use crate::endian::{append_le, read_le, WORD_SIZE};
#[allow(unused_imports)]
use crate::endian::{law_le_bytes_round_trip, le_bytes, le_value, lemma_le_bytes_len, lemma_word_size};
use crate::error::{Error, ErrorKind};

verus! {

/// The size of the length.
pub const LENGTH_SIZE: usize = WORD_SIZE;

/// The text of the error for data that has no length.
pub const TOO_SHORT: &'static str = "inline data in mach message too short";

/// The text of the error for data that is shorter than its length says.
pub const LENGTH_MISMATCH: &'static str = "inline data in mach message does not match declared length";

/// The text of the error for a message that the buffer cannot take.
pub const BUFFER_TOO_SMALL: &'static str = "buffer too small for incomming message";

/// How many zeros follow a message.
pub open spec fn padding(length: nat) -> nat {
    ((4 - (LENGTH_SIZE + length) % 4) % 4) as nat
}

/// The data that carries a message.
pub open spec fn frame(message: Seq<u8>) -> Seq<u8> {
    le_bytes(message.len(), LENGTH_SIZE as nat) + message + Seq::new(
        padding(message.len()),
        |at: int| 0u8,
    )
}

/// The length that the data declares.
pub open spec fn declared(data: Seq<u8>) -> nat {
    le_value(data.take(LENGTH_SIZE as int))
}

/// The length of the message that data carries, for a buffer of `room` bytes.
pub open spec fn unframed(data: Seq<u8>, room: nat) -> Result<nat, Error> {
    if data.len() < LENGTH_SIZE {
        Err(Error::Custom { kind: ErrorKind::Other, message: TOO_SHORT })
    } else if declared(data) > data.len() - LENGTH_SIZE {
        Err(Error::Custom { kind: ErrorKind::Other, message: LENGTH_MISMATCH })
    } else if declared(data) > room {
        Err(Error::Custom { kind: ErrorKind::Other, message: BUFFER_TOO_SMALL })
    } else {
        Ok(declared(data))
    }
}

/// The length of a message as it goes ahead of it.
pub fn encode_length(length: usize) -> (bytes: Vec<u8>)
    ensures
        bytes@ == le_bytes(length as nat, LENGTH_SIZE as nat),
{
    let mut bytes: Vec<u8> = Vec::new();
    append_le(&mut bytes, length as u64, LENGTH_SIZE);
    bytes
}

/// The zeros that bring data of a length up to a multiple of four.
pub fn encode_padding(data_length: usize) -> (bytes: Vec<u8>)
    ensures
        bytes@ == Seq::new(((4 - data_length % 4) % 4) as nat, |at: int| 0u8),
{
    let mut bytes: Vec<u8> = Vec::new();
    let over: usize = data_length % 4;
    if over != 0 {
        let count: usize = 4 - over;
        for index in 0..count
            invariant
                bytes@ == Seq::new(index as nat, |at: int| 0u8),
        {
            bytes.push(0);
        }
    }
    assert(bytes@ =~= Seq::new(((4 - data_length % 4) % 4) as nat, |at: int| 0u8));
    bytes
}

/// Copies the message that data carries to the beginning of `dest`, and returns its length.
pub fn decode(data: &[u8], dest: &mut [u8]) -> (result: Result<usize, Error>)
    ensures
        match result {
            Ok(length) => {
                &&& unframed(data@, old(dest)@.len()) == Ok::<nat, Error>(length as nat)
                &&& final(dest)@ == data@.subrange(LENGTH_SIZE as int, LENGTH_SIZE + length) + old(
                    dest,
                )@.skip(length as int)
            },
            Err(error) => {
                &&& unframed(data@, old(dest)@.len()) == Err::<nat, Error>(error)
                &&& final(dest)@ == old(dest)@
            },
        },
{
    proof {
        lemma_word_size();
    }
    if data.len() < LENGTH_SIZE {
        return Err(Error::Custom { kind: ErrorKind::Other, message: TOO_SHORT });
    }
    let declared_length: u64 = read_le(data, 0, LENGTH_SIZE);
    assert(data@.subrange(0, LENGTH_SIZE as int) == data@.take(LENGTH_SIZE as int));
    if declared_length > (data.len() - LENGTH_SIZE) as u64 {
        return Err(Error::Custom { kind: ErrorKind::Other, message: LENGTH_MISMATCH });
    }
    let length: usize = declared_length as usize;
    if length > dest.len() {
        return Err(Error::Custom { kind: ErrorKind::Other, message: BUFFER_TOO_SMALL });
    }
    let ghost before = dest@;
    let available: usize = data.len();
    for index in 0..length
        invariant
            length <= before.len(),
            dest@.len() == before.len(),
            LENGTH_SIZE + length <= available,
            available == data@.len(),
            forall|at: int|
                0 <= at < before.len() ==> dest@[at] == (if at < index {
                    data@[LENGTH_SIZE + at]
                } else {
                    before[at]
                }),
    {
        dest[index] = data[LENGTH_SIZE + index];
    }
    assert(dest@ == data@.subrange(LENGTH_SIZE as int, LENGTH_SIZE + length) + before.skip(
        length as int,
    ));
    Ok(length)
}

/// What is sent is what is received: data that carries a message gives back that message, its length
/// and nothing more, in every buffer that can take it, and is refused by every other buffer.
pub proof fn law_frame_round_trip(message: Seq<u8>, room: nat)
    requires
        message.len() <= usize::MAX,
    ensures
        unframed(frame(message), room) == (if message.len() <= room {
            Ok::<nat, Error>(message.len())
        } else {
            Err(Error::Custom { kind: ErrorKind::Other, message: BUFFER_TOO_SMALL })
        }),
        frame(message).subrange(LENGTH_SIZE as int, LENGTH_SIZE + message.len() as int) == message,
        frame(message).len() % 4 == 0,
{
    let size = LENGTH_SIZE as nat;
    lemma_word_size();
    lemma_le_bytes_len(message.len(), size);
    law_le_bytes_round_trip(message.len(), size);
    assert(frame(message).take(size as int) == le_bytes(message.len(), size));
}

/// A frame is laid out as the length, the message and as few zeros as bring it up to a multiple of
/// four.
pub proof fn law_frame_is_laid_out(message: Seq<u8>, at: int)
    requires
        message.len() <= usize::MAX,
    ensures
        frame(message).len() % 4 == 0,
        WORD_SIZE + message.len() <= frame(message).len() < WORD_SIZE + message.len() + 4,
        le_value(frame(message).take(WORD_SIZE as int)) == message.len(),
        0 <= at < message.len() ==> frame(message)[WORD_SIZE + at] == message[at],
        WORD_SIZE + message.len() <= at < frame(message).len() ==> frame(message)[at] == 0,
{
    law_frame_round_trip(message, 0);
    let size = LENGTH_SIZE as nat;
    lemma_word_size();
    lemma_le_bytes_len(message.len(), size);
    law_le_bytes_round_trip(message.len(), size);
    assert(frame(message).take(size as int) == le_bytes(message.len(), size));
}

/// Data is refused where it has no length, else where it is shorter than its length says, else where
/// the buffer cannot take the message, each with its own text; and only there.
pub proof fn law_data_is_refused_for_cause(data: Seq<u8>, room: nat)
    ensures
        ({
            let result = unframed(data, room);
            let length = le_value(data.take(WORD_SIZE as int));
            &&& data.len() < WORD_SIZE ==> result == Err::<nat, Error>(
                Error::Custom { kind: ErrorKind::Other, message: TOO_SHORT },
            )
            &&& data.len() >= WORD_SIZE && WORD_SIZE + length > data.len() ==> result == Err::<
                nat,
                Error,
            >(Error::Custom { kind: ErrorKind::Other, message: LENGTH_MISMATCH })
            &&& data.len() >= WORD_SIZE && WORD_SIZE + length <= data.len() && length > room
                ==> result == Err::<nat, Error>(
                Error::Custom { kind: ErrorKind::Other, message: BUFFER_TOO_SMALL },
            )
            &&& data.len() >= WORD_SIZE && WORD_SIZE + length <= data.len() && length <= room
                ==> result == Ok::<nat, Error>(length)
        }),
{
}

} // verus!
