//! Socket addresses, as far as their size goes.
use vstd::prelude::*;

verus! {

/// The size of an address of version 4: family, port, address and padding.
pub const SOCKADDR_IN_SIZE: u32 = 16;

/// The size of an address of version 6: family, port, flow, address and scope.
pub const SOCKADDR_IN6_SIZE: u32 = 28;

/// The size of an address, as it goes into the system calls.
pub fn sockaddr_len(is_ipv4: bool) -> (length: u32)
    ensures
        length == (if is_ipv4 {
            SOCKADDR_IN_SIZE
        } else {
            SOCKADDR_IN6_SIZE
        }),
{
    if is_ipv4 {
        SOCKADDR_IN_SIZE
    } else {
        SOCKADDR_IN6_SIZE
    }
}

} // verus!
