//! The sizes of the control messages that travel with a message over a socket.
use vstd::prelude::*;

use crate::endian::WORD_SIZE;
#[allow(unused_imports)]
use crate::endian::lemma_word_size;

verus! {

/// The alignment of control messages: a word of the machine.
pub const ALIGNMENT: usize = WORD_SIZE;

/// The smallest multiple of the alignment that is not below `length`.
pub open spec fn aligned(length: int) -> int {
    (length + ALIGNMENT - 1) / (ALIGNMENT as int) * ALIGNMENT
}

/// Rounds a length up to the alignment.
pub fn cmsg_align(length: usize) -> (result: usize)
    requires
        length <= usize::MAX - (ALIGNMENT - 1),
    ensures
        result == aligned(length as int),
        length <= result < length + ALIGNMENT,
        result % ALIGNMENT == 0,
{
    proof {
        lemma_word_size();
    }
    let sum: usize = length + (ALIGNMENT - 1);
    assert(sum & !7usize == sum / 8 * 8) by (bit_vector);
    assert(sum & !3usize == sum / 4 * 4) by (bit_vector);
    sum & !(ALIGNMENT - 1)
}

/// What the length of a control message with `length` bytes of data is recorded as; `header` is the
/// size of its header.
pub fn cmsg_len(header: usize, length: usize) -> (result: usize)
    requires
        header <= usize::MAX - (ALIGNMENT - 1),
        aligned(header as int) + length <= usize::MAX,
    ensures
        result == aligned(header as int) + length,
{
    cmsg_align(header) + length
}

/// The room that a control message with `length` bytes of data takes up.
pub fn cmsg_space(header: usize, length: usize) -> (result: usize)
    requires
        header <= usize::MAX - (ALIGNMENT - 1),
        length <= usize::MAX - (ALIGNMENT - 1),
        aligned(header as int) + aligned(length as int) <= usize::MAX,
    ensures
        result == aligned(header as int) + aligned(length as int),
{
    cmsg_align(length) + cmsg_align(header)
}

/// Where the data of a control message begins, from the beginning of its header.
pub fn cmsg_data_offset(header: usize) -> (offset: usize)
    requires
        header <= usize::MAX - (ALIGNMENT - 1),
    ensures
        offset == aligned(header as int),
{
    cmsg_align(header)
}

/// The data of a control message lies within the room that the message takes up.
pub proof fn law_control_data_fits(header: int, length: int)
    requires
        header >= 0,
        length >= 0,
    ensures
        aligned(header) + length <= aligned(header) + aligned(length),
        aligned(header) >= header,
{
    lemma_word_size();
}

/// Rounding up gives the least multiple of the alignment that is not below the length.
pub proof fn law_alignment_rounds_up_least(length: int, multiple: int)
    requires
        length >= 0,
    ensures
        aligned(length) >= length,
        aligned(length) < length + ALIGNMENT,
        aligned(length) % (ALIGNMENT as int) == 0,
        multiple >= length && multiple % (ALIGNMENT as int) == 0 ==> aligned(length) <= multiple,
{
    lemma_word_size();
}

} // verus!
