//! Thread pools.
use vstd::prelude::*;

verus! {

/// A pool of threads.
#[derive(Debug)]
pub struct ThreadPool {}

/// How a pool is to be made.
#[derive(Debug)]
pub struct Builder {
    thread_count: usize,
    thread_name_prefix: Option<String>,
}

/// The number of processors that threads can run on, by [`num_cpus::get`]. It is at least one; how
/// many there are is up to the machine and to the limits that are set for the process.
#[verifier::external_body]
pub(crate) fn processor_count() -> (count: usize)
    ensures
        count >= 1,
{
    num_cpus::get()
}

impl ThreadPool {
    /// Begins to make a pool.
    pub fn builder() -> (builder: Builder)
        ensures
            builder.spec_thread_count() >= 1,
            builder.spec_thread_name_prefix() is None,
    {
        Builder::new()
    }
}

impl Builder {
    /// The number of threads.
    pub closed spec fn spec_thread_count(self) -> usize {
        self.thread_count
    }

    /// What the names of the threads begin with.
    pub closed spec fn spec_thread_name_prefix(self) -> Option<String> {
        self.thread_name_prefix
    }

    /// A pool with a thread for each processor, and with threads that have no name.
    pub fn new() -> (builder: Builder)
        ensures
            builder.spec_thread_count() >= 1,
            builder.spec_thread_name_prefix() is None,
    {
        Builder::with_thread_count(processor_count())
    }

    /// A pool with a number of threads that have no name.
    pub fn with_thread_count(thread_count: usize) -> (builder: Builder)
        ensures
            builder.spec_thread_count() == thread_count,
            builder.spec_thread_name_prefix() is None,
    {
        Builder { thread_count, thread_name_prefix: None }
    }

    /// The number of threads.
    pub fn thread_count(&self) -> (count: usize)
        ensures
            count == self.spec_thread_count(),
    {
        self.thread_count
    }

    /// Whether the threads have names.
    pub fn has_thread_names(&self) -> (named: bool)
        ensures
            named == (self.spec_thread_name_prefix() is Some),
    {
        self.thread_name_prefix.is_some()
    }
}

} // verus!
