//! Numbers as bytes, the lowest first.
use vstd::prelude::*;

verus! {

/// The size of a word of the machine in bytes.
pub const WORD_SIZE: usize = usize::BITS as usize / 8;

/// The lowest `count` bytes of a number, the lowest first.
pub open spec fn le_bytes(value: nat, count: nat) -> Seq<u8>
    decreases count,
{
    if count == 0 {
        Seq::empty()
    } else {
        seq![(value % 256) as u8] + le_bytes(value / 256, (count - 1) as nat)
    }
}

/// The number that bytes stand for, the lowest first.
pub open spec fn le_value(bytes: Seq<u8>) -> nat
    decreases bytes.len(),
{
    if bytes.len() == 0 {
        0
    } else {
        bytes.first() as nat + 256 * le_value(bytes.drop_first())
    }
}

/// How many numbers fit a count of bytes.
pub open spec fn le_room(count: nat) -> nat
    decreases count,
{
    if count == 0 {
        1
    } else {
        256 * le_room((count - 1) as nat)
    }
}

/// As many bytes come out as were asked for.
pub proof fn lemma_le_bytes_len(value: nat, count: nat)
    ensures
        le_bytes(value, count).len() == count,
    decreases count,
{
    if count > 0 {
        lemma_le_bytes_len(value / 256, (count - 1) as nat);
    }
}

/// A number that fits its bytes is what the bytes stand for.
pub proof fn law_le_bytes_round_trip(value: nat, count: nat)
    requires
        value < le_room(count),
    ensures
        le_value(le_bytes(value, count)) == value,
    decreases count,
{
    if count > 0 {
        law_le_bytes_round_trip(value / 256, (count - 1) as nat);
        assert(le_bytes(value, count).drop_first() == le_bytes(value / 256, (count - 1) as nat));
    }
}

proof fn lemma_le_value_bound(bytes: Seq<u8>)
    ensures
        le_value(bytes) < le_room(bytes.len()),
    decreases bytes.len(),
{
    if bytes.len() > 0 {
        lemma_le_value_bound(bytes.drop_first());
    }
}

proof fn lemma_le_room_monotonic(count: nat, limit: nat)
    requires
        count <= limit,
    ensures
        0 < le_room(count) <= le_room(limit),
    decreases limit,
{
    if count < limit {
        lemma_le_room_monotonic(count, (limit - 1) as nat);
    } else if count > 0 {
        lemma_le_room_monotonic((count - 1) as nat, (limit - 1) as nat);
    }
}

/// Four bytes hold the numbers of 32 bits, eight bytes those of 64 bits.
pub proof fn lemma_le_room()
    ensures
        le_room(4) == u32::MAX + 1,
        le_room(8) == u64::MAX + 1,
{
    reveal_with_fuel(le_room, 9);
}

/// A word holds the numbers that lengths of memory are given in; it has four or eight bytes.
pub proof fn lemma_word_size()
    ensures
        WORD_SIZE == 4 || WORD_SIZE == 8,
        le_room(WORD_SIZE as nat) == usize::MAX + 1,
{
    lemma_le_room();
}

/// Appends the lowest `count` bytes of a number.
pub fn append_le(buffer: &mut Vec<u8>, value: u64, count: usize)
    ensures
        final(buffer)@ == old(buffer)@ + le_bytes(value as nat, count as nat),
{
    let ghost before = buffer@;
    let mut rest: u64 = value;
    for index in 0..count
        invariant
            buffer@ + le_bytes(rest as nat, (count - index) as nat) == before + le_bytes(
                value as nat,
                count as nat,
            ),
    {
        let ghost appended = buffer@;
        let ghost tail = le_bytes((rest / 256) as nat, (count - index - 1) as nat);
        assert(le_bytes(rest as nat, (count - index) as nat) == seq![(rest % 256) as u8] + tail);
        buffer.push((rest % 256) as u8);
        assert(buffer@ + tail == appended + (seq![(rest % 256) as u8] + tail));
        rest = rest / 256;
    }
    assert(buffer@ + le_bytes(rest as nat, 0) == buffer@);
}

/// Reads a number of at most eight bytes.
pub fn read_le(bytes: &[u8], start: usize, count: usize) -> (value: u64)
    requires
        start + count <= bytes@.len(),
        count <= 8,
    ensures
        value == le_value(bytes@.subrange(start as int, start + count)),
        value < le_room(count as nat),
{
    let ghost part = bytes@.subrange(start as int, start + count);
    let length: usize = bytes.len();
    let mut value: u64 = 0;
    let mut index: usize = count;
    assert(part.skip(count as int) == Seq::<u8>::empty());
    while index > 0
        invariant
            index <= count,
            count <= 8,
            start + count <= length,
            length == bytes@.len(),
            part == bytes@.subrange(start as int, start + count),
            value == le_value(part.skip(index as int)),
        decreases index,
    {
        index = index - 1;
        let ghost rest = part.skip(index as int);
        assert(rest.drop_first() == part.skip(index + 1));
        proof {
            lemma_le_value_bound(rest);
            lemma_le_room_monotonic((count - index) as nat, 8);
            lemma_le_room();
        }
        value = value * 256 + bytes[start + index] as u64;
    }
    proof {
        assert(part.skip(0) == part);
        lemma_le_value_bound(part);
    }
    value
}

/// The first byte of a number counts once, and each that follows counts 256 times what the one before
/// it does: what bytes stand for is what their first part stands for, and as many times what the rest
/// stands for as there are numbers in the first part's bytes.
pub proof fn law_lowest_byte_comes_first(first: Seq<u8>, rest: Seq<u8>, byte: u8)
    ensures
        le_value(Seq::<u8>::empty()) == 0,
        le_value(seq![byte]) == byte,
        le_room(0) == 1,
        le_room(1) == 256,
        le_room(first.len() + 1) == 256 * le_room(first.len()),
        le_value(first + rest) == le_value(first) + le_room(first.len()) * le_value(rest),
    decreases first.len(),
{
    reveal_with_fuel(le_value, 2);
    reveal_with_fuel(le_room, 2);
    assert(seq![byte].drop_first() == Seq::<u8>::empty());
    if first.len() == 0 {
        assert(first + rest == rest);
    } else {
        let fewer = first.drop_first();
        law_lowest_byte_comes_first(fewer, rest, byte);
        assert((first + rest).drop_first() == fewer + rest);
        assert((first + rest).first() == first.first());
        let room = le_room(fewer.len());
        let value = le_value(rest);
        assert(256 * (room * value) == (256 * room) * value) by (nonlinear_arith);
        assert(le_room(first.len()) == 256 * room);
    }
}

/// Bytes are those of the number that they stand for.
pub proof fn law_le_value_round_trip(bytes: Seq<u8>)
    ensures
        le_bytes(le_value(bytes), bytes.len()) == bytes,
    decreases bytes.len(),
{
    if bytes.len() > 0 {
        law_le_value_round_trip(bytes.drop_first());
        assert(le_value(bytes) % 256 == bytes.first());
        assert(le_value(bytes) / 256 == le_value(bytes.drop_first()));
        assert(le_bytes(le_value(bytes), bytes.len()) == bytes);
    } else {
        assert(le_bytes(le_value(bytes), 0) == bytes);
    }
}

} // verus!
