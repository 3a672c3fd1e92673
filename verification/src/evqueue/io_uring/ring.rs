//! Setting up a ring.
use vstd::prelude::*;

use super::features::Features;
use super::sys::{io_uring_params, Region};
use crate::error::{Error, ErrorKind};

verus! {

/// The number of submission entries where none is asked for.
pub const SQE_ENTRY_COUNT_DEFAULT: usize = 1024;

/// The greatest number of submission entries.
pub const SQE_ENTRY_COUNT_MAX: usize = 4096;

/// A part of the ring, where it is mapped.
#[derive(Clone, Copy, PartialEq, Eq, Debug, Structural)]
pub struct RingMmap {
    pub address: usize,
    pub size: u64,
}

/// A ring.
#[derive(PartialEq, Eq, Debug)]
pub struct IoUring {
    pub ring_fd: i32,
    pub params: io_uring_params,
    pub features: Features,
    pub sq_mmap: RingMmap,
    pub sqe_mmap: RingMmap,
    pub cq_mmap: RingMmap,
}

/// What setting up a ring returned: the descriptor or the negative code of an error, what the
/// kernel tells of the ring, and the class of the error.
#[derive(Clone, Copy, PartialEq, Eq, Debug)]
pub struct Setup {
    pub returned: i32,
    pub params: io_uring_params,
    pub kind: ErrorKind,
}

/// How a ring is to be set up.
#[derive(Clone, Copy, PartialEq, Eq, Debug, Structural)]
pub struct Builder {
    pub entries: usize,
    pub features: Option<Features>,
}

/// Whether a number is a power of two.
pub open spec fn power_of_two(number: nat) -> bool
    decreases number,
{
    number == 1 || (number > 1 && number % 2 == 0 && power_of_two(number / 2))
}

/// Whether a ring can have that many submission entries.
pub open spec fn valid_entries(entries: usize) -> bool {
    1 <= entries <= SQE_ENTRY_COUNT_MAX && power_of_two(entries as nat)
}

/// Whether a ring can have that many submission entries.
pub fn entries_are_valid(entries: usize) -> (valid: bool)
    ensures
        valid == valid_entries(entries),
{
    if entries < 1 || entries > SQE_ENTRY_COUNT_MAX {
        return false;
    }
    let mut rest: usize = entries;
    while rest % 2 == 0
        invariant
            1 <= rest <= SQE_ENTRY_COUNT_MAX,
            power_of_two(entries as nat) == power_of_two(rest as nat),
        decreases rest,
    {
        rest = rest / 2;
    }
    rest == 1
}

/// The address that mapping fails with.
pub const MAP_FAILED: usize = usize::MAX;

/// Reads the answer to mapping a part of a ring.
pub fn map_answer(address: usize, last_error: Error) -> (result: Result<usize, Error>)
    ensures
        result == (if address == MAP_FAILED {
            Err(last_error)
        } else {
            Ok(address)
        }),
{
    if address == MAP_FAILED {
        Err(last_error)
    } else {
        Ok(address)
    }
}

/// A step of setting up a ring, or what it came to.
#[derive(PartialEq, Eq, Debug)]
pub enum BuildStep {
    /// Ask the kernel for a ring with that many submission entries.
    Setup { entries: u32, features: Features },
    /// Map the submission ring.
    MapSubmissionRing { ring_fd: i32, region: Region, params: io_uring_params, features: Features },
    /// Map the submission entries.
    MapSubmissionEntries {
        ring_fd: i32,
        region: Region,
        params: io_uring_params,
        features: Features,
        sq_mmap: RingMmap,
    },
    /// Map the completion ring.
    MapCompletionRing {
        ring_fd: i32,
        region: Region,
        params: io_uring_params,
        features: Features,
        sq_mmap: RingMmap,
        sqe_mmap: RingMmap,
    },
    Over(IoUring),
    /// It failed: what was mapped until then is to be unmapped, and the descriptor closed.
    Failed {
        error: Error,
        opened: Option<i32>,
        mapped_sq: Option<RingMmap>,
        mapped_sqe: Option<RingMmap>,
    },
}

/// The answer of the system to a step.
#[derive(Clone, Copy, PartialEq, Eq, Debug)]
pub enum BuildAnswer {
    Setup(Setup),
    /// The address that was mapped.
    Mapped(Result<usize, Error>),
}

impl BuildStep {
    /// Whether an answer is one to this step. The negative code that the kernel returns for a
    /// failure is never the least number.
    pub open spec fn answered_by(self, answer: BuildAnswer) -> bool {
        match self {
            BuildStep::Setup { .. } => answer matches BuildAnswer::Setup(done) && done.returned
                > i32::MIN,
            BuildStep::MapSubmissionRing { .. } => answer is Mapped,
            BuildStep::MapSubmissionEntries { .. } => answer is Mapped,
            BuildStep::MapCompletionRing { .. } => answer is Mapped,
            _ => false,
        }
    }

    /// The step that follows: the submission ring, the submission entries and the completion ring
    /// are mapped, in this order, and the first failure ends it.
    pub open spec fn after(self, answer: BuildAnswer) -> BuildStep {
        match (self, answer) {
            (BuildStep::Setup { entries, features }, BuildAnswer::Setup(done)) => if done.returned
                < 0 {
                BuildStep::Failed {
                    error: Error::Os { code: (-done.returned) as i32, kind: done.kind },
                    opened: None,
                    mapped_sq: None,
                    mapped_sqe: None,
                }
            } else {
                BuildStep::MapSubmissionRing {
                    ring_fd: done.returned,
                    region: done.params.spec_submission_ring(),
                    params: done.params,
                    features,
                }
            },
            (
                BuildStep::MapSubmissionRing { ring_fd, region, params, features },
                BuildAnswer::Mapped(mapped),
            ) => match mapped {
                Ok(address) => BuildStep::MapSubmissionEntries {
                    ring_fd,
                    region: params.spec_submission_entries(),
                    params,
                    features,
                    sq_mmap: RingMmap { address, size: region.size },
                },
                Err(error) => BuildStep::Failed {
                    error,
                    opened: Some(ring_fd),
                    mapped_sq: None,
                    mapped_sqe: None,
                },
            },
            (
                BuildStep::MapSubmissionEntries { ring_fd, region, params, features, sq_mmap },
                BuildAnswer::Mapped(mapped),
            ) => match mapped {
                Ok(address) => BuildStep::MapCompletionRing {
                    ring_fd,
                    region: params.spec_completion_ring(),
                    params,
                    features,
                    sq_mmap,
                    sqe_mmap: RingMmap { address, size: region.size },
                },
                Err(error) => BuildStep::Failed {
                    error,
                    opened: Some(ring_fd),
                    mapped_sq: Some(sq_mmap),
                    mapped_sqe: None,
                },
            },
            (
                BuildStep::MapCompletionRing {
                    ring_fd,
                    region,
                    params,
                    features,
                    sq_mmap,
                    sqe_mmap,
                },
                BuildAnswer::Mapped(mapped),
            ) => match mapped {
                Ok(address) => BuildStep::Over(
                    IoUring {
                        ring_fd,
                        params,
                        features,
                        sq_mmap,
                        sqe_mmap,
                        cq_mmap: RingMmap { address, size: region.size },
                    },
                ),
                Err(error) => BuildStep::Failed {
                    error,
                    opened: Some(ring_fd),
                    mapped_sq: Some(sq_mmap),
                    mapped_sqe: Some(sqe_mmap),
                },
            },
            _ => self,
        }
    }

    /// The step that follows the answer.
    pub fn next(self, answer: BuildAnswer) -> (step: BuildStep)
        requires
            self.answered_by(answer),
        ensures
            step == self.after(answer),
    {
        match (self, answer) {
            (BuildStep::Setup { features, .. }, BuildAnswer::Setup(done)) => {
                if done.returned < 0 {
                    return BuildStep::Failed {
                        error: Error::Os { code: -done.returned, kind: done.kind },
                        opened: None,
                        mapped_sq: None,
                        mapped_sqe: None,
                    };
                }
                BuildStep::MapSubmissionRing {
                    ring_fd: done.returned,
                    region: done.params.submission_ring(),
                    params: done.params,
                    features,
                }
            },
            (
                BuildStep::MapSubmissionRing { ring_fd, region, params, features },
                BuildAnswer::Mapped(mapped),
            ) => match mapped {
                Ok(address) => BuildStep::MapSubmissionEntries {
                    ring_fd,
                    region: params.submission_entries(),
                    params,
                    features,
                    sq_mmap: RingMmap { address, size: region.size },
                },
                Err(error) => BuildStep::Failed {
                    error,
                    opened: Some(ring_fd),
                    mapped_sq: None,
                    mapped_sqe: None,
                },
            },
            (
                BuildStep::MapSubmissionEntries { ring_fd, region, params, features, sq_mmap },
                BuildAnswer::Mapped(mapped),
            ) => match mapped {
                Ok(address) => BuildStep::MapCompletionRing {
                    ring_fd,
                    region: params.completion_ring(),
                    params,
                    features,
                    sq_mmap,
                    sqe_mmap: RingMmap { address, size: region.size },
                },
                Err(error) => BuildStep::Failed {
                    error,
                    opened: Some(ring_fd),
                    mapped_sq: Some(sq_mmap),
                    mapped_sqe: None,
                },
            },
            (
                BuildStep::MapCompletionRing {
                    ring_fd,
                    region,
                    params,
                    features,
                    sq_mmap,
                    sqe_mmap,
                },
                BuildAnswer::Mapped(mapped),
            ) => match mapped {
                Ok(address) => BuildStep::Over(
                    IoUring {
                        ring_fd,
                        params,
                        features,
                        sq_mmap,
                        sqe_mmap,
                        cq_mmap: RingMmap { address, size: region.size },
                    },
                ),
                Err(error) => BuildStep::Failed {
                    error,
                    opened: Some(ring_fd),
                    mapped_sq: Some(sq_mmap),
                    mapped_sqe: Some(sqe_mmap),
                },
            },
            (step, _) => step,
        }
    }
}

/// A ring consists of what was asked for, part by part: it has the descriptor that the kernel
/// returned, and each of its parts lies where it was mapped and has the size that the kernel's
/// parameters give.
pub proof fn law_ring_is_mapped_part_by_part(
    first: BuildStep,
    done: Setup,
    sq: usize,
    sqe: usize,
    cq: usize,
)
    requires
        first is Setup,
        done.returned >= 0,
    ensures
        ({
            let second = first.after(BuildAnswer::Setup(done));
            let third = second.after(BuildAnswer::Mapped(Ok(sq)));
            let fourth = third.after(BuildAnswer::Mapped(Ok(sqe)));
            &&& second is MapSubmissionRing && second->MapSubmissionRing_region
                == done.params.spec_submission_ring()
            &&& third is MapSubmissionEntries && third->MapSubmissionEntries_region
                == done.params.spec_submission_entries()
            &&& fourth is MapCompletionRing && fourth->MapCompletionRing_region
                == done.params.spec_completion_ring()
            &&& fourth.after(BuildAnswer::Mapped(Ok(cq))) == BuildStep::Over(
                IoUring {
                    ring_fd: done.returned,
                    params: done.params,
                    features: first->Setup_features,
                    sq_mmap: RingMmap { address: sq, size: done.params.spec_submission_ring().size },
                    sqe_mmap: RingMmap {
                        address: sqe,
                        size: done.params.spec_submission_entries().size,
                    },
                    cq_mmap: RingMmap { address: cq, size: done.params.spec_completion_ring().size },
                },
            )
        }),
{
}

/// Nothing is left behind by a failure: whichever mapping fails, the parts that were mapped before
/// it and the descriptor are handed back with the error; where the kernel refused the ring there is
/// nothing to hand back.
pub proof fn law_failure_hands_everything_back(
    first: BuildStep,
    done: Setup,
    sq: usize,
    sqe: usize,
    error: Error,
)
    requires
        first is Setup,
    ensures
        ({
            let second = first.after(BuildAnswer::Setup(done));
            let third = second.after(BuildAnswer::Mapped(Ok(sq)));
            let fourth = third.after(BuildAnswer::Mapped(Ok(sqe)));
            let sq_mmap = RingMmap { address: sq, size: done.params.spec_submission_ring().size };
            let sqe_mmap = RingMmap {
                address: sqe,
                size: done.params.spec_submission_entries().size,
            };
            if done.returned < 0 {
                second == (BuildStep::Failed {
                    error: Error::Os { code: (-done.returned) as i32, kind: done.kind },
                    opened: None,
                    mapped_sq: None,
                    mapped_sqe: None,
                })
            } else {
                &&& second.after(BuildAnswer::Mapped(Err(error))) == (BuildStep::Failed {
                    error,
                    opened: Some(done.returned),
                    mapped_sq: None,
                    mapped_sqe: None,
                })
                &&& third.after(BuildAnswer::Mapped(Err(error))) == (BuildStep::Failed {
                    error,
                    opened: Some(done.returned),
                    mapped_sq: Some(sq_mmap),
                    mapped_sqe: None,
                })
                &&& fourth.after(BuildAnswer::Mapped(Err(error))) == (BuildStep::Failed {
                    error,
                    opened: Some(done.returned),
                    mapped_sq: Some(sq_mmap),
                    mapped_sqe: Some(sqe_mmap),
                })
            }
        }),
{
}

impl Builder {
    /// A ring with the default number of entries and the features that are detected.
    pub fn new() -> (builder: Builder)
        ensures
            builder == (Builder { entries: SQE_ENTRY_COUNT_DEFAULT, features: None }),
    {
        Builder { entries: SQE_ENTRY_COUNT_DEFAULT, features: None }
    }

    /// Sets the number of submission entries, a power of two of at most 4096.
    pub fn entries(&mut self, entries: usize) -> (builder: &mut Builder)
        requires
            valid_entries(entries),
        ensures
            *builder == (Builder { entries, features: old(self).features }),
            *final(self) == *final(builder),
    {
        self.entries = entries;
        self
    }

    /// Sets the features that are to be enabled.
    pub fn features(&mut self, features: Features) -> (builder: &mut Builder)
        ensures
            *builder == (Builder { entries: old(self).entries, features: Some(features) }),
            *final(self) == *final(builder),
    {
        self.features = Some(features);
        self
    }

    /// The features that a ring is set up with: those that were set, else those that were
    /// `detected`.
    pub open spec fn spec_features(self, detected: Features) -> Features {
        match self.features {
            Some(features) => features,
            None => detected,
        }
    }

    /// The first step of setting up the ring.
    pub fn build(&self, detected: Features) -> (step: BuildStep)
        requires
            self.entries <= u32::MAX,
        ensures
            step == (BuildStep::Setup {
                entries: self.entries as u32,
                features: self.spec_features(detected),
            }),
    {
        let features: Features = match self.features {
            Some(features) => features,
            None => detected,
        };
        BuildStep::Setup { entries: self.entries as u32, features }
    }
}

impl IoUring {
    /// The first step of setting up a ring with the default number of entries and the features that
    /// were detected.
    pub fn new(detected: Features) -> (step: BuildStep)
        ensures
            step == (BuildStep::Setup { entries: 1024, features: detected }),
    {
        Builder::new().build(detected)
    }
}

/// The numbers of entries that a ring can have are the powers of two up to 4096.
pub proof fn law_entries_are_small_powers_of_two(entries: usize)
    ensures
        valid_entries(entries) <==> entries == 1 || entries == 2 || entries == 4 || entries == 8
            || entries == 16 || entries == 32 || entries == 64 || entries == 128 || entries == 256
            || entries == 512 || entries == 1024 || entries == 2048 || entries == 4096,
{
    reveal_with_fuel(power_of_two, 14);
}

/// A ring gets the features that were set, and those that were detected only where none were.
pub proof fn law_features_that_were_set_count(builder: Builder, detected: Features)
    ensures
        builder.features is Some ==> builder.spec_features(detected) == builder.features->0,
        builder.features is None ==> builder.spec_features(detected) == detected,
{
}

} // verus!
