use compio::error::{Error, ErrorKind};
use compio::evqueue::io_uring::features::{Features, ENOSYS};
use compio::evqueue::io_uring::operation::{Operation, OperationResult, Shared, SubmitState};
use compio::evqueue::io_uring::ring::{
    entries_are_valid, map_answer, BuildAnswer, BuildStep, Builder, IoUring, RingMmap, Setup, MAP_FAILED,
};
use compio::evqueue::io_uring::sys::{
    io_cqring_offsets, io_sqring_offsets, io_uring_cqe, io_uring_params, io_uring_sqe, sqe_tail,
};
use compio::evqueue::EvQueue;
use compio::poll::Poll;
use compio::threadpool::{Builder as PoolBuilder, ThreadPool};
use compio::waker::WakerSlot;

fn os(code: i32) -> Error {
    Error::Os { code, kind: ErrorKind::Other }
}

fn params() -> io_uring_params {
    io_uring_params {
        sq_entries: 1024,
        cq_entries: 2048,
        flags: 0,
        sq_thread_cpu: 0,
        sq_thread_idle: 0,
        features: 0,
        resv: [0; 4],
        sq_off: io_sqring_offsets {
            head: 0,
            tail: 4,
            ring_mask: 16,
            ring_entries: 24,
            flags: 36,
            dropped: 32,
            array: 320,
            resv: [0; 3],
        },
        cq_off: io_cqring_offsets {
            head: 8,
            tail: 12,
            ring_mask: 20,
            ring_entries: 28,
            overflow: 44,
            cqes: 64,
            flags: 40,
            resv: [0; 3],
        },
    }
}

fn set_up(returned: i32) -> Setup {
    Setup { returned, params: params(), kind: ErrorKind::Other }
}

fn sqe() -> io_uring_sqe {
    io_uring_sqe {
        opcode: 22,
        flags: 0,
        ioprio: 0,
        fd: 3,
        off: 0,
        addr: 0,
        len: 16,
        op_flags: 0,
        user_data: 0,
        tail: sqe_tail { buf_spec: 0, personality: 0, splice_fd_in: 0 },
    }
}

/// Sets up a ring with answers of the system, and tells which mappings were asked for.
fn build(
    first: BuildStep,
    setup: impl FnOnce(u32) -> Setup,
    map: impl Fn(i32, u64, i64) -> Result<usize, Error>,
) -> (BuildStep, Vec<(u64, i64)>) {
    let mut requests = Vec::new();
    let entries = match &first {
        BuildStep::Setup { entries, .. } => *entries,
        other => panic!("unexpected first step {:?}", other),
    };
    let mut step = first.next(BuildAnswer::Setup(setup(entries)));
    loop {
        let (ring_fd, region) = match &step {
            BuildStep::MapSubmissionRing { ring_fd, region, .. } => (*ring_fd, *region),
            BuildStep::MapSubmissionEntries { ring_fd, region, .. } => (*ring_fd, *region),
            BuildStep::MapCompletionRing { ring_fd, region, .. } => (*ring_fd, *region),
            _ => return (step, requests),
        };
        requests.push((region.size, region.offset));
        step = step.next(BuildAnswer::Mapped(map(ring_fd, region.size, region.offset)));
    }
}

#[test]
fn test_create_uring() {
    let detected = Features { io_uring: true };
    let (step, requests) = build(
        IoUring::new(detected),
        |entries: u32| if entries == 1024 { set_up(9) } else { set_up(-22) },
        |fd: i32, size: u64, offset: i64| match (fd, size, offset) {
            (9, 4416, 0) => Ok(0x1000),
            (9, 65536, 0x1000_0000) => Ok(0x2000),
            (9, 32832, 0x800_0000) => Ok(0x3000),
            _ => Err(os(22)),
        },
    );
    assert_eq!(requests, vec![(4416, 0), (65536, 0x1000_0000), (32832, 0x800_0000)]);
    let ring = match step {
        BuildStep::Over(ring) => ring,
        other => panic!("unexpected step {:?}", other),
    };
    assert_eq!(ring.ring_fd, 9);
    assert_eq!(ring.features, detected);
    assert_eq!((ring.sq_mmap.address, ring.sq_mmap.size), (0x1000, 4416));
    assert_eq!((ring.sqe_mmap.address, ring.sqe_mmap.size), (0x2000, 65536));
    assert_eq!((ring.cq_mmap.address, ring.cq_mmap.size), (0x3000, 32832));
    let queue = EvQueue::IoUring(ring);
    assert_eq!(queue.as_io_uring().map(|ring| ring.ring_fd), Some(9));
    assert!(EvQueue::Other.as_io_uring().is_none());
}

#[test]
fn rings_that_cannot_be_set_up() {
    let detected = Features { io_uring: true };
    let all = |_: i32, _: u64, _: i64| Ok(0x1000usize);
    let (refused, requests) = build(Builder::new().build(detected), |_: u32| set_up(-38), all);
    assert_eq!(refused, BuildStep::Failed { error: os(38), opened: None, mapped_sq: None, mapped_sqe: None });
    assert!(requests.is_empty());
    let sq = RingMmap { address: 0x1000, size: 4416 };
    let sqe = RingMmap { address: 0x1000, size: 65536 };
    let failures = [
        (0i64, None, None, 1),
        (0x1000_0000, Some(sq), None, 2),
        (0x800_0000, Some(sq), Some(sqe), 3),
    ];
    for (failing, mapped_sq, mapped_sqe, asked) in failures {
        let (unmapped, requests) = build(
            Builder::new().build(detected),
            |_: u32| set_up(9),
            |_: i32, _: u64, offset: i64| if offset == failing { Err(os(12)) } else { Ok(0x1000) },
        );
        assert_eq!(unmapped, BuildStep::Failed { error: os(12), opened: Some(9), mapped_sq, mapped_sqe });
        assert_eq!(requests.len(), asked);
    }
    assert_eq!(map_answer(0x1000, os(12)), Ok(0x1000));
    assert_eq!(map_answer(MAP_FAILED, os(12)), Err(os(12)));
}

#[test]
fn builders_are_told_what_to_build() {
    let mut builder = Builder::new();
    assert_eq!((builder.entries, builder.features), (1024, None));
    builder.entries(256).features(Features { io_uring: false });
    assert_eq!((builder.entries, builder.features), (256, Some(Features { io_uring: false })));
    let (step, _) = build(
        builder.build(Features { io_uring: true }),
        |entries: u32| if entries == 256 { set_up(9) } else { set_up(-22) },
        |_: i32, _: u64, _: i64| Ok(0x1000),
    );
    match step {
        BuildStep::Over(ring) => assert_eq!(ring.features, Features { io_uring: false }),
        other => panic!("unexpected step {:?}", other),
    }
}

#[test]
fn numbers_of_entries() {
    for power in 0..13 {
        assert!(entries_are_valid(1 << power));
    }
    for entries in [0, 3, 6, 100, 4095, 4097, 8192, usize::MAX] {
        assert!(!entries_are_valid(entries));
    }
}

#[test]
fn features_are_detected() {
    assert!(!Features::test(-ENOSYS).io_uring);
    assert!(Features::test(-22).io_uring);
    assert!(Features::test(0).io_uring);
    assert_eq!(ENOSYS, libc::ENOSYS);
}

#[test]
fn operations_hand_out_their_result_once() {
    let operation = Operation::new(sqe());
    assert_eq!(operation.to_cancel(), None);
    let mut operation = Operation {
        submit_state: SubmitState::Submitted { op_id: 5 },
        shared: Shared { done: false, result: None, waker: WakerSlot::new() },
    };
    assert_eq!(operation.poll(1), Poll::Pending);
    assert_eq!(operation.shared.waker.waker(), Some(1));
    assert_eq!(operation.poll(2), Poll::Pending);
    assert_eq!(operation.shared.waker.waker(), Some(2));
    let completion = io_uring_cqe { user_data: 5, res: 16, flags: 1 };
    let result = OperationResult { res: completion.res, flags: completion.flags };
    operation.shared.result = Some(result);
    operation.shared.done = true;
    assert_eq!(operation.shared.waker.wake(), Some(2));
    assert_eq!(operation.shared.waker.wake(), None);
    assert_eq!(operation.poll(3), Poll::Ready(result));
    assert!(operation.shared.done);
    assert_eq!(operation.shared.result, None);
    assert_eq!(operation.shared.waker.waker(), Some(3));
    assert_eq!(operation.to_cancel(), Some(5));
}

#[test]
fn pools_have_a_thread_for_each_processor() {
    assert_eq!(ThreadPool::builder().thread_count(), num_cpus::get());
    assert_eq!(PoolBuilder::new().thread_count(), num_cpus::get());
    assert!(!PoolBuilder::new().has_thread_names());
    assert_eq!(PoolBuilder::with_thread_count(3).thread_count(), 3);
}
