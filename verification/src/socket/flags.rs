//! Making a descriptor non-blocking, and closed on the execution of another program.
use vstd::prelude::*;

use crate::error::Error;

verus! {

/// The descriptor flag that closes it on the execution of another program.
pub const FD_CLOEXEC: i32 = 0x1;

/// A request to `fcntl`.
#[derive(Clone, Copy, PartialEq, Eq, Debug, Structural)]
pub enum FlagStep {
    /// Read the descriptor flags.
    GetDescriptorFlags,
    /// Write the descriptor flags.
    SetDescriptorFlags(i32),
    /// Read the status flags.
    GetStatusFlags,
    /// Write the status flags.
    SetStatusFlags(i32),
}

/// The steps that make a descriptor non-blocking and closed on execution.
#[derive(Debug)]
pub struct SetNonblockAndCloexec {
    /// The status flag for a descriptor that does not block.
    nonblock: i32,
    step: Option<FlagStep>,
}

impl SetNonblockAndCloexec {
    /// The status flag for a descriptor that does not block.
    pub closed spec fn nonblock(self) -> i32 {
        self.nonblock
    }

    /// The next request; none once the flags are set.
    pub closed spec fn step(self) -> Option<FlagStep> {
        self.step
    }

    /// Begins with the descriptor flags. `nonblock` is the status flag for a descriptor that does
    /// not block.
    pub fn new(nonblock: i32) -> (set: SetNonblockAndCloexec)
        ensures
            set.nonblock() == nonblock,
            set.step() == Some(FlagStep::GetDescriptorFlags),
    {
        SetNonblockAndCloexec { nonblock, step: Some(FlagStep::GetDescriptorFlags) }
    }

    /// The next request; none once the flags are set.
    pub fn next_step(&self) -> (step: Option<FlagStep>)
        ensures
            step == self.step(),
    {
        self.step
    }

    /// Takes in the answer to the request: the flags that were read, zero for flags that were
    /// written, or minus one for a failure, which ends the steps.
    pub fn step_done(&mut self, returned: i32, last_error: Error) -> (result: Result<(), Error>)
        requires
            old(self).step() is Some,
        ensures
            final(self).nonblock() == old(self).nonblock(),
            result == (if returned == -1 {
                Err(last_error)
            } else {
                Ok(())
            }),
            final(self).step() == (if returned == -1 {
                old(self).step()
            } else {
                after_step(old(self).step()->0, returned, old(self).nonblock())
            }),
    {
        if returned == -1 {
            return Err(last_error);
        }
        self.step = match self.step {
            Some(FlagStep::GetDescriptorFlags) => Some(
                FlagStep::SetDescriptorFlags(returned | FD_CLOEXEC),
            ),
            Some(FlagStep::SetDescriptorFlags(_)) => Some(FlagStep::GetStatusFlags),
            Some(FlagStep::GetStatusFlags) => Some(
                FlagStep::SetStatusFlags(returned | self.nonblock),
            ),
            Some(FlagStep::SetStatusFlags(_)) => None,
            None => None,
        };
        Ok(())
    }
}

/// The request that follows one that was answered.
pub open spec fn after_step(step: FlagStep, returned: i32, nonblock: i32) -> Option<FlagStep> {
    match step {
        FlagStep::GetDescriptorFlags => Some(FlagStep::SetDescriptorFlags(returned | FD_CLOEXEC)),
        FlagStep::SetDescriptorFlags(_) => Some(FlagStep::GetStatusFlags),
        FlagStep::GetStatusFlags => Some(FlagStep::SetStatusFlags(returned | nonblock)),
        FlagStep::SetStatusFlags(_) => None,
    }
}

/// The flags that are written hold the flag that was asked for, and every flag that was read.
pub proof fn law_flags_are_only_added(read: i32, added: i32)
    ensures
        (read | added) & added == added,
        (read | added) & read == read,
        (read | added) & !added == read & !added,
{
    assert((read | added) & added == added) by (bit_vector);
    assert((read | added) & read == read) by (bit_vector);
    assert((read | added) & !added == read & !added) by (bit_vector);
}

/// A descriptor becomes closed on execution and non-blocking by four requests, each once: what is
/// written is what was read with the one flag added, the descriptor flags first and then the status
/// flags, and nothing comes after.
pub proof fn law_flags_are_read_and_written_in_turn(
    descriptor_flags: i32,
    status_flags: i32,
    written: i32,
    nonblock: i32,
)
    ensures
        ({
            let second = after_step(FlagStep::GetDescriptorFlags, descriptor_flags, nonblock);
            let fourth = after_step(FlagStep::GetStatusFlags, status_flags, nonblock);
            &&& second is Some && second->0 is SetDescriptorFlags
            &&& second->0->SetDescriptorFlags_0 & 1 == 1
            &&& second->0->SetDescriptorFlags_0 & !1 == descriptor_flags & !1
            &&& after_step(second->0, written, nonblock) == Some(FlagStep::GetStatusFlags)
            &&& fourth is Some && fourth->0 is SetStatusFlags
            &&& fourth->0->SetStatusFlags_0 & nonblock == nonblock
            &&& fourth->0->SetStatusFlags_0 & !nonblock == status_flags & !nonblock
            &&& after_step(fourth->0, written, nonblock) is None
        }),
{
    law_flags_are_only_added(descriptor_flags, 1);
    law_flags_are_only_added(status_flags, nonblock);
}

} // verus!
