//! Streams of bytes that are read and written without blocking.
use core::future::Future;
use vstd::prelude::*;

use super::pinned::{PinnedBuffer, PinnedBufferMut};
use crate::error::Error;

verus! {

/// A stream that bytes can be written to.
pub trait AsyncWrite<'a> {
    /// A write that is under way.
    type Write: Future<Output = Result<usize, Error>> + Send + 'a;

    /// A write that copies nothing, and is under way.
    type WriteZeroCopy: Future<Output = Result<usize, Error>> + Send + 'a;

    /// Writes bytes to the stream.
    fn write(&'a mut self, buffer: &'a [u8]) -> Self::Write;

    /// Writes bytes to the stream, without copying them where the system allows it.
    ///
    /// The bytes may have to outlive the future, as they do where the operation is cancelled and the
    /// system still works on them. The buffer has to allow for [`PinnedBuffer::take`] at any time
    /// from this call on until the future completes or is dropped.
    fn write_zero_copy<B: PinnedBuffer>(&'a mut self, buffer: &'a mut B) -> Self::WriteZeroCopy;
}

/// A stream that bytes can be read from.
pub trait AsyncRead<'a> {
    /// A read that is under way.
    type Read: Future<Output = Result<usize, Error>> + Send + 'a;

    /// A read that copies nothing, and is under way.
    type ReadZeroCopy: Future<Output = Result<usize, Error>> + Send + 'a;

    /// Reads bytes from the stream.
    fn read(&'a mut self, buffer: &'a mut [u8]) -> Self::Read;

    /// Reads bytes from the stream, without copying them where the system allows it.
    ///
    /// The bytes may have to outlive the future, as they do where the operation is cancelled and the
    /// system still works on them. The buffer has to allow for [`PinnedBuffer::take`] at any time
    /// from this call on until the future completes or is dropped.
    fn read_zero_copy<B: PinnedBufferMut>(&'a mut self, buffer: &'a mut B) -> Self::ReadZeroCopy;
}

} // verus!
