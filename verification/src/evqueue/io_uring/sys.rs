//! The structures that are shared with the kernel.
use vstd::prelude::*;

verus! {

/// Where the submission ring is mapped from.
pub const IORING_OFF_SQ_RING: i64 = 0;

/// Where the completion ring is mapped from.
pub const IORING_OFF_CQ_RING: i64 = 0x800_0000;

/// Where the submission entries are mapped from.
pub const IORING_OFF_SQES: i64 = 0x1000_0000;

/// The size of an index into the submission entries.
pub const INDEX_SIZE: u64 = 4;

/// The size of a submission entry.
pub const SQE_SIZE: u64 = 64;

/// The size of a completion entry.
pub const CQE_SIZE: u64 = 16;

/// What the kernel tells of a ring that was set up.
#[allow(bad_style)]
#[derive(Clone, Copy, PartialEq, Eq, Debug)]
pub struct io_uring_params {
    pub sq_entries: u32,
    pub cq_entries: u32,
    pub flags: u32,
    pub sq_thread_cpu: u32,
    pub sq_thread_idle: u32,
    pub features: u32,
    pub resv: [u32; 4],
    pub sq_off: io_sqring_offsets,
    pub cq_off: io_cqring_offsets,
}

/// Where the parts of the submission ring lie.
#[allow(bad_style)]
#[derive(Clone, Copy, PartialEq, Eq, Debug)]
pub struct io_sqring_offsets {
    pub head: u32,
    pub tail: u32,
    pub ring_mask: u32,
    pub ring_entries: u32,
    pub flags: u32,
    pub dropped: u32,
    pub array: u32,
    pub resv: [u32; 3],
}

/// Where the parts of the completion ring lie.
#[allow(bad_style)]
#[derive(Clone, Copy, PartialEq, Eq, Debug)]
pub struct io_cqring_offsets {
    pub head: u32,
    pub tail: u32,
    pub ring_mask: u32,
    pub ring_entries: u32,
    pub overflow: u32,
    pub cqes: u32,
    pub flags: u32,
    pub resv: [u32; 3],
}

/// A completion entry.
#[allow(bad_style)]
#[derive(Clone, Copy, PartialEq, Eq, Debug, Structural)]
pub struct io_uring_cqe {
    pub user_data: u64,
    pub res: i32,
    pub flags: u32,
}

/// A submission entry. The flags of the operation stand for whichever the operation takes.
#[allow(bad_style)]
#[derive(Clone, Copy, PartialEq, Eq, Debug, Structural)]
pub struct io_uring_sqe {
    pub opcode: u8,
    pub flags: u8,
    pub ioprio: u16,
    pub fd: i32,
    pub off: u64,
    pub addr: u64,
    pub len: u32,
    pub op_flags: u32,
    pub user_data: u64,
    pub tail: sqe_tail,
}

/// The end of a submission entry. The buffer is given by its index or by its group.
#[allow(bad_style)]
#[derive(Clone, Copy, PartialEq, Eq, Debug, Structural)]
pub struct sqe_tail {
    pub buf_spec: u16,
    pub personality: u16,
    pub splice_fd_in: i32,
}

/// A part of the ring that is mapped into memory.
#[derive(Clone, Copy, PartialEq, Eq, Debug, Structural)]
pub struct Region {
    pub size: u64,
    pub offset: i64,
}

impl io_uring_params {
    /// The submission ring: it ends with an array of indices, one for each entry.
    pub open spec fn spec_submission_ring(self) -> Region {
        Region {
            size: (self.sq_off.array + self.sq_entries * INDEX_SIZE) as u64,
            offset: IORING_OFF_SQ_RING,
        }
    }

    /// The submission entries.
    pub open spec fn spec_submission_entries(self) -> Region {
        Region { size: (self.sq_entries * SQE_SIZE) as u64, offset: IORING_OFF_SQES }
    }

    /// The completion ring: it ends with the completion entries.
    pub open spec fn spec_completion_ring(self) -> Region {
        Region {
            size: (self.cq_off.cqes + self.cq_entries * CQE_SIZE) as u64,
            offset: IORING_OFF_CQ_RING,
        }
    }

    /// The submission ring: it ends with an array of indices, one for each entry.
    pub fn submission_ring(&self) -> (region: Region)
        ensures
            region == self.spec_submission_ring(),
            region.size == self.sq_off.array + self.sq_entries * INDEX_SIZE,
    {
        Region {
            size: self.sq_off.array as u64 + self.sq_entries as u64 * INDEX_SIZE,
            offset: IORING_OFF_SQ_RING,
        }
    }

    /// The submission entries.
    pub fn submission_entries(&self) -> (region: Region)
        ensures
            region == self.spec_submission_entries(),
            region.size == self.sq_entries * SQE_SIZE,
    {
        Region { size: self.sq_entries as u64 * SQE_SIZE, offset: IORING_OFF_SQES }
    }

    /// The completion ring: it ends with the completion entries.
    pub fn completion_ring(&self) -> (region: Region)
        ensures
            region == self.spec_completion_ring(),
            region.size == self.cq_off.cqes + self.cq_entries * CQE_SIZE,
    {
        Region {
            size: self.cq_off.cqes as u64 + self.cq_entries as u64 * CQE_SIZE,
            offset: IORING_OFF_CQ_RING,
        }
    }
}

/// The parts of a ring are as large as what they hold: the submission ring reaches over the indices,
/// of four bytes, one for each submission entry; the entries take 64 bytes each; and the completion
/// ring reaches over the completion entries, of 16 bytes. The kernel tells the parts apart by where
/// they are mapped from.
pub proof fn law_parts_hold_their_entries(params: io_uring_params)
    ensures
        params.spec_submission_ring().size == params.sq_off.array + 4 * params.sq_entries,
        params.spec_submission_entries().size == 64 * params.sq_entries,
        params.spec_completion_ring().size == params.cq_off.cqes + 16 * params.cq_entries,
        params.spec_submission_ring().offset == 0,
        params.spec_completion_ring().offset == 0x800_0000,
        params.spec_submission_entries().offset == 0x1000_0000,
{
}

} // verus!
