//! Which descriptors and ports are registered with an event queue.
use std::collections::HashSet;
use vstd::prelude::*;

use super::mach::PortRegistration;
use super::registration::Registration;
use crate::error::{Error, ErrorKind};

verus! {

broadcast use vstd::std_specs::hash::group_hash_axioms;

/// The text of the error for a descriptor that is registered already.
pub const FD_REGISTERED: &'static str = "the given fd is already registered with this EventQueue";

/// The text of the error for a port that is registered already.
pub const PORT_REGISTERED: &'static str = "the given mach port is already registered with this EventQueue";

/// The descriptors and ports that an event queue has registrations of.
pub struct Registered {
    fds: HashSet<i32>,
    ports: HashSet<u32>,
}

impl Registered {
    /// The registered descriptors.
    pub closed spec fn fds(self) -> Set<i32> {
        self.fds@
    }

    /// The registered ports.
    pub closed spec fn ports(self) -> Set<u32> {
        self.ports@
    }

    /// Nothing is registered.
    pub fn new() -> (registered: Registered)
        ensures
            registered.fds() == Set::<i32>::empty(),
            registered.ports() == Set::<u32>::empty(),
    {
        Registered { fds: HashSet::new(), ports: HashSet::new() }
    }

    /// Registers a descriptor. Where it is registered already this is refused; several listeners
    /// are to hold the same registration.
    pub fn register_fd(&mut self, source: i32) -> (result: Result<Registration, Error>)
        ensures
            result == (if old(self).fds().contains(source) {
                Err(Error::Custom { kind: ErrorKind::AddrInUse, message: FD_REGISTERED })
            } else {
                Ok(Registration::fresh(source))
            }),
            final(self).fds() == old(self).fds().insert(source),
            final(self).ports() == old(self).ports(),
    {
        if !self.fds.insert(source) {
            return Err(Error::Custom { kind: ErrorKind::AddrInUse, message: FD_REGISTERED });
        }
        Ok(Registration::new(source))
    }

    /// Forgets a descriptor, once no holder of its registration is left.
    pub fn release_fd(&mut self, fd: i32)
        ensures
            final(self).fds() == old(self).fds().remove(fd),
            final(self).ports() == old(self).ports(),
    {
        self.fds.remove(&fd);
    }

    /// Registers a mach port. Where it is registered already this is refused. A port stays
    /// registered as long as the event queue lasts.
    pub fn register_mach_port(&mut self, source: u32) -> (result: Result<PortRegistration, Error>)
        ensures
            result == (if old(self).ports().contains(source) {
                Err(Error::Custom { kind: ErrorKind::AddrInUse, message: PORT_REGISTERED })
            } else {
                Ok(PortRegistration { port: source, waker: None })
            }),
            final(self).ports() == old(self).ports().insert(source),
            final(self).fds() == old(self).fds(),
    {
        if !self.ports.insert(source) {
            return Err(Error::Custom { kind: ErrorKind::AddrInUse, message: PORT_REGISTERED });
        }
        Ok(PortRegistration::new(source))
    }
}

/// The steps that change which descriptors are registered.
pub enum RegisteredOp {
    Register(i32),
    Release(i32),
}

/// The registered descriptors after a succession of steps.
pub open spec fn registered_after(fds: Set<i32>, ops: Seq<RegisteredOp>) -> Set<i32>
    decreases ops.len(),
{
    if ops.len() == 0 {
        fds
    } else {
        match ops.last() {
            RegisteredOp::Register(fd) => registered_after(fds, ops.drop_last()).insert(fd),
            RegisteredOp::Release(fd) => registered_after(fds, ops.drop_last()).remove(fd),
        }
    }
}

/// A descriptor can be registered once with an event queue: once it was, it stays registered until
/// it is released, whatever else is registered and released meanwhile.
pub proof fn law_registered_until_released(fds: Set<i32>, fd: i32, ops: Seq<RegisteredOp>)
    requires
        !ops.contains(RegisteredOp::Release(fd)),
    ensures
        registered_after(fds.insert(fd), ops).contains(fd),
    decreases ops.len(),
{
    if ops.len() > 0 {
        let earlier = ops.drop_last();
        assert(ops.last() == ops[ops.len() - 1]);
        assert forall|at: int| 0 <= at < earlier.len() implies earlier[at]
            != RegisteredOp::Release(fd) by {
            assert(ops[at] == earlier[at]);
        }
        law_registered_until_released(fds, fd, earlier);
    }
}

} // verus!
