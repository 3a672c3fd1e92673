//! Streams, and the buffers that can outlive the operation that uses them.
pub mod pinned;
pub mod shared;
pub mod stream;
