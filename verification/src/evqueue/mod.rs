//! Event queues by what they are backed with.
pub mod io_uring;

use vstd::prelude::*;

use self::io_uring::ring::IoUring;

verus! {

/// An event queue.
#[derive(Debug)]
pub enum EvQueue {
    /// One that an `io_uring` backs.
    IoUring(IoUring),
    /// One that something else backs.
    Other,
}

impl EvQueue {
    /// The `io_uring` behind the queue, if it is backed by one.
    pub fn as_io_uring(&self) -> (ring: Option<&IoUring>)
        ensures
            ring == (match *self {
                EvQueue::IoUring(ring) => Some(&ring),
                EvQueue::Other => None,
            }),
    {
        match self {
            EvQueue::IoUring(ring) => Some(ring),
            EvQueue::Other => None,
        }
    }
}

} // verus!
