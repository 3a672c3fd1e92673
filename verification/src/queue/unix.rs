//! The event classes of a file descriptor, whatever the event queue.
use vstd::prelude::*;

use super::epoll::filter::{EPOLLIN, EPOLLOUT};
use super::kqueue::filter::{EVFILT_READ, EVFILT_WRITE};

verus! {

/// What a descriptor can be ready for.
#[derive(Clone, Copy, PartialEq, Eq, Hash, Debug, Structural)]
pub enum Filter {
    Read,
    Write,
}

impl Filter {
    /// The class as `epoll` has it.
    pub fn epoll(&self) -> (filter: super::epoll::filter::Filter)
        ensures
            filter.valid(),
            filter.0 == (match *self {
                Filter::Read => EPOLLIN,
                Filter::Write => EPOLLOUT,
            }),
    {
        match self {
            Filter::Read => super::epoll::filter::Filter(EPOLLIN),
            Filter::Write => super::epoll::filter::Filter(EPOLLOUT),
        }
    }

    /// The class as `kqueue` has it.
    pub fn kqueue(&self) -> (filter: super::kqueue::filter::Filter)
        ensures
            filter.valid(),
            filter.0 == (match *self {
                Filter::Read => EVFILT_READ,
                Filter::Write => EVFILT_WRITE,
            }),
    {
        match self {
            Filter::Read => super::kqueue::filter::Filter(EVFILT_READ),
            Filter::Write => super::kqueue::filter::Filter(EVFILT_WRITE),
        }
    }
}

} // verus!
