//! What the operating system supports.
use vstd::prelude::*;

verus! {

/// The code of an error for a system call that does not exist.
pub const ENOSYS: i32 = 38;

/// The features that are supported.
#[derive(Clone, Copy, PartialEq, Eq, Debug, Structural)]
pub struct Features {
    pub io_uring: bool,
}

impl Features {
    /// Reads what setting up a ring without entries returned: it is supported unless there is no
    /// such call.
    pub fn test(returned: i32) -> (features: Features)
        ensures
            features.io_uring == (returned != -ENOSYS),
    {
        Features { io_uring: returned != -ENOSYS }
    }
}

} // verus!
