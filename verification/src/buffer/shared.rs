//! The buffers of the `bytes` crate as buffers for operations that copy nothing.
use bytes::{Bytes, BytesMut};
use vstd::prelude::*;

use super::pinned::{lies_within, PinnedBuffer, PinnedBufferMut};

verus! {

/// Bytes that are shared.
#[verifier::external_type_specification]
#[verifier::external_body]
pub struct ExBytes(Bytes);

/// Bytes that have one owner.
#[verifier::external_type_specification]
#[verifier::external_body]
pub struct ExBytesMut(BytesMut);

/// The bytes of a [`Bytes`].
pub uninterp spec fn shared_contents(buffer: Bytes) -> Seq<u8>;

/// The bytes of a [`BytesMut`].
pub uninterp spec fn owned_contents(buffer: BytesMut) -> Seq<u8>;

/// Whether a [`Bytes`] stores its bytes inline: in itself, so that they move with it.
pub uninterp spec fn shared_inline(buffer: Bytes) -> bool;

/// Whether a [`BytesMut`] stores its bytes inline: in itself, so that they move with it.
pub uninterp spec fn owned_inline(buffer: BytesMut) -> bool;

/// The bytes, by the `deref` of [`Bytes`].
#[verifier::external_body]
pub(crate) fn shared_slice(buffer: &Bytes) -> (bytes: &[u8])
    ensures
        bytes@ == shared_contents(*buffer),
{
    &**buffer
}

/// Where the bytes that the `deref` of [`Bytes`] gives start, and from where to where the [`Bytes`]
/// itself lies, each by `as_ptr_range`. Bytes that are stored inline start within the [`Bytes`], and
/// no others lie there; of an empty slice that is stored elsewhere, which may start anywhere, this is
/// not claimed. Nothing else is claimed of an address.
#[verifier::external_body]
pub(crate) fn shared_location(buffer: &Bytes) -> (location: (usize, usize, usize))
    ensures
        shared_inline(*buffer) ==> location.1 <= location.0 < location.2,
        location.1 <= location.0 < location.2 && shared_contents(*buffer).len() > 0
            ==> shared_inline(*buffer),
{
    let bytes = (**buffer).as_ptr_range();
    let place = core::slice::from_ref(buffer).as_ptr_range();
    (bytes.start as usize, place.start as usize, place.end as usize)
}

/// A [`Bytes`] that takes over a vector, by its `From<Vec<u8>>`: it holds the same bytes, where the
/// vector has them.
#[verifier::external_body]
pub(crate) fn shared_from_vec(bytes: Vec<u8>) -> (buffer: Bytes)
    ensures
        shared_contents(buffer) == bytes@,
        !shared_inline(buffer),
{
    Bytes::from(bytes)
}

/// Another handle of the same bytes, by the `clone` of [`Bytes`]. Where they are not stored inline it
/// is a handle of the same memory: pointer, length and capacity are those of the first, and the
/// memory stays as long as one of the handles does. Inline bytes are copied with the handle.
#[verifier::external_body]
pub(crate) fn shared_clone(buffer: &Bytes) -> (other: Bytes)
    ensures
        shared_contents(other) == shared_contents(*buffer),
        !shared_inline(*buffer) ==> other == *buffer,
{
    buffer.clone()
}

/// The bytes, by the `deref` of [`BytesMut`].
#[verifier::external_body]
pub(crate) fn owned_slice(buffer: &BytesMut) -> (bytes: &[u8])
    ensures
        bytes@ == owned_contents(*buffer),
{
    &**buffer
}

/// The place of the bytes, by the `deref_mut` of [`BytesMut`]: what is written there is what the
/// buffer holds, and it is stored where it was. Where nothing else is written the buffer is as it was.
#[verifier::external_body]
pub(crate) fn owned_slice_mut(buffer: &mut BytesMut) -> (bytes: &mut [u8])
    ensures
        bytes@ == owned_contents(*old(buffer)),
        owned_contents(*final(buffer)) == final(bytes)@,
        owned_inline(*final(buffer)) == owned_inline(*old(buffer)),
        final(bytes)@ == bytes@ ==> *final(buffer) == *old(buffer),
{
    &mut **buffer
}

/// Where the bytes that the `deref` of [`BytesMut`] gives start, and from where to where the
/// [`BytesMut`] itself lies, each by `as_ptr_range`. Bytes that are stored inline start within the
/// [`BytesMut`], and no others lie there; of an empty slice that is stored elsewhere, which may start
/// anywhere, this is not claimed. Nothing else is claimed of an address.
#[verifier::external_body]
pub(crate) fn owned_location(buffer: &BytesMut) -> (location: (usize, usize, usize))
    ensures
        owned_inline(*buffer) ==> location.1 <= location.0 < location.2,
        location.1 <= location.0 < location.2 && owned_contents(*buffer).len() > 0
            ==> owned_inline(*buffer),
{
    let bytes = (**buffer).as_ptr_range();
    let place = core::slice::from_ref(buffer).as_ptr_range();
    (bytes.start as usize, place.start as usize, place.end as usize)
}

/// A [`BytesMut`] that takes over a vector, by its `From<Vec<u8>>`: it holds the same bytes, where the
/// vector has them.
#[verifier::external_body]
pub(crate) fn owned_from_vec(bytes: Vec<u8>) -> (buffer: BytesMut)
    ensures
        owned_contents(buffer) == bytes@,
        !owned_inline(buffer),
{
    BytesMut::from(bytes)
}

/// A buffer without bytes, by [`BytesMut::new`].
#[verifier::external_body]
pub(crate) fn owned_empty() -> (buffer: BytesMut)
    ensures
        owned_contents(buffer) == Seq::<u8>::empty(),
{
    BytesMut::new()
}

fn copied(bytes: &[u8]) -> (copy: Vec<u8>)
    ensures
        copy@ == bytes@,
{
    let mut copy: Vec<u8> = Vec::new();
    copy.extend_from_slice(bytes);
    assert(copy@ == bytes@);
    copy
}

/// Moves the bytes out of the buffer itself, where they lie in it. Bytes that lie elsewhere stay where
/// they are.
fn pin_shared(buffer: &mut Bytes)
    ensures
        shared_contents(*final(buffer)) == shared_contents(*old(buffer)),
        !shared_inline(*final(buffer)),
        !shared_inline(*old(buffer)) && shared_contents(*old(buffer)).len() > 0 ==> *final(buffer) == *old(
            buffer,
        ),
{
    let location: (usize, usize, usize) = shared_location(buffer);
    if lies_within(location.0, location.1, location.2) {
        let bytes: Vec<u8> = copied(shared_slice(buffer));
        *buffer = shared_from_vec(bytes);
    }
}

/// Moves the bytes out of the buffer itself, where they lie in it. Bytes that lie elsewhere stay where
/// they are.
fn pin_owned(buffer: &mut BytesMut)
    ensures
        owned_contents(*final(buffer)) == owned_contents(*old(buffer)),
        !owned_inline(*final(buffer)),
        !owned_inline(*old(buffer)) && owned_contents(*old(buffer)).len() > 0 ==> *final(buffer) == *old(
            buffer,
        ),
{
    let location: (usize, usize, usize) = owned_location(buffer);
    if lies_within(location.0, location.1, location.2) {
        let bytes: Vec<u8> = copied(owned_slice(buffer));
        *buffer = owned_from_vec(bytes);
    }
}

impl PinnedBuffer for Bytes {
    type Taken = Bytes;

    open spec fn contents(&self) -> Seq<u8> {
        shared_contents(*self)
    }

    open spec fn kept(taken: &Bytes) -> Seq<u8> {
        shared_contents(*taken)
    }

    open spec fn captured(taken: &Bytes, buffer: Bytes) -> bool {
        *taken == buffer
    }

    open spec fn pinned(&self) -> bool {
        !shared_inline(*self)
    }

    fn bytes(&mut self) -> (bytes: &[u8]) {
        pin_shared(self);
        shared_slice(self)
    }

    fn take(&mut self) -> (taken: Bytes)
        ensures
            *final(self) == *old(self),
            !shared_inline(*old(self)) ==> taken == *old(self),
    {
        shared_clone(self)
    }
}

impl PinnedBuffer for BytesMut {
    type Taken = BytesMut;

    open spec fn contents(&self) -> Seq<u8> {
        owned_contents(*self)
    }

    open spec fn kept(taken: &BytesMut) -> Seq<u8> {
        owned_contents(*taken)
    }

    open spec fn captured(taken: &BytesMut, buffer: BytesMut) -> bool {
        *taken == buffer
    }

    open spec fn pinned(&self) -> bool {
        !owned_inline(*self)
    }

    fn bytes(&mut self) -> (bytes: &[u8]) {
        pin_owned(self);
        owned_slice(self)
    }

    fn take(&mut self) -> (taken: BytesMut)
        ensures
            taken == *old(self),
            owned_contents(*final(self)) == Seq::<u8>::empty(),
    {
        let mut taken: BytesMut = owned_empty();
        core::mem::swap(&mut taken, self);
        taken
    }
}

impl PinnedBufferMut for BytesMut {
    fn bytes_mut(&mut self) -> (bytes: &mut [u8]) {
        pin_owned(self);
        owned_slice_mut(self)
    }
}

/// What was taken captures the memory of a buffer only where it is a handle of that same memory, and
/// a buffer is pinned only where its bytes are not stored in itself; what is kept alive is what the
/// buffer held.
pub proof fn law_capturing_is_no_copy(buffer: Bytes, taken: Bytes, owned: BytesMut, moved: BytesMut)
    ensures
        Bytes::captured(&taken, buffer) <==> taken == buffer,
        buffer.pinned() <==> !shared_inline(buffer),
        Bytes::captured(&taken, buffer) ==> Bytes::kept(&taken) == buffer.contents(),
        buffer.contents() == shared_contents(buffer),
        BytesMut::captured(&moved, owned) <==> moved == owned,
        owned.pinned() <==> !owned_inline(owned),
        BytesMut::captured(&moved, owned) ==> BytesMut::kept(&moved) == owned.contents(),
        owned.contents() == owned_contents(owned),
{
}

} // verus!
