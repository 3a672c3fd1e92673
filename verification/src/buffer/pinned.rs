//! Buffers for operations that copy nothing.
use vstd::prelude::*;

verus! {

/// A buffer of bytes for an operation that copies nothing.
///
/// It has to give the same bytes, at the same place, every time it is asked for them, and it has to
/// let go of them into something that keeps them alive where they must outlive the operation.
pub trait PinnedBuffer: Sized {
    /// What keeps the bytes alive.
    type Taken: Send;

    /// The bytes.
    spec fn contents(&self) -> Seq<u8>;

    /// The bytes that are kept alive.
    spec fn kept(taken: &Self::Taken) -> Seq<u8>;

    /// Whether what was taken holds the memory of the bytes of a buffer, not a copy of them.
    spec fn captured(taken: &Self::Taken, buffer: Self) -> bool;

    /// Whether the bytes lie apart from the buffer: they stay where they are when it moves.
    spec fn pinned(&self) -> bool;

    /// The bytes, at a place that does not move with the buffer. Asked again, a buffer with bytes is
    /// left as it is, so that they stay at that place.
    fn bytes(&mut self) -> (bytes: &[u8])
        ensures
            bytes@ == old(self).contents(),
            final(self).contents() == old(self).contents(),
            final(self).pinned(),
            old(self).pinned() && old(self).contents().len() > 0 ==> *final(self) == *old(self),
    ;

    /// Keeps the bytes alive: those of a buffer that is pinned stay at their place until what is
    /// returned goes. The buffer is not to be used after this.
    fn take(&mut self) -> (taken: Self::Taken)
        ensures
            Self::kept(&taken) == old(self).contents(),
            old(self).pinned() ==> Self::captured(&taken, *old(self)),
    ;
}

/// A buffer of bytes that can be written.
pub trait PinnedBufferMut: PinnedBuffer {
    /// The place of the bytes, which does not move with the buffer. Asked again, a buffer with bytes
    /// is left as it is but for what is written, so that they stay at that place.
    fn bytes_mut(&mut self) -> (bytes: &mut [u8])
        ensures
            bytes@ == old(self).contents(),
            final(self).contents() == final(bytes)@,
            final(self).pinned(),
            old(self).pinned() && old(self).contents().len() > 0 && final(bytes)@ == bytes@
                ==> *final(self) == *old(self),
    ;
}

/// Whether an address lies within a container: the bytes of a small buffer lie in the buffer itself,
/// and move with it.
pub fn lies_within(address: usize, start: usize, end: usize) -> (within: bool)
    ensures
        within == (start <= address < end),
{
    address >= start && address < end
}

} // verus!
