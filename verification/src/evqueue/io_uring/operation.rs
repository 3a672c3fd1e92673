//! Operations that are submitted to a ring.
use vstd::prelude::*;

use super::sys::io_uring_sqe;
use crate::poll::Poll;
#[allow(unused_imports)]
use crate::waker::{WaitStep, Waiting};
use crate::waker::WakerSlot;

verus! {

/// What an operation came to.
#[derive(Clone, Copy, PartialEq, Eq, Debug, Structural)]
pub struct OperationResult {
    pub res: i32,
    pub flags: u32,
}

/// Whether an operation has been handed to the ring.
#[derive(Clone, Copy, PartialEq, Eq, Debug, Structural)]
pub enum SubmitState {
    Unsubmitted { sqe: io_uring_sqe },
    Submitted { op_id: u64 },
}

/// What is shared with whoever completes the operation, who owns the result until it is done: that
/// and the waker of the task that waits. Each method is one step that no other step divides.
#[derive(PartialEq, Eq, Debug)]
pub struct Shared {
    pub done: bool,
    pub result: Option<OperationResult>,
    pub waker: WakerSlot,
}

impl Shared {
    /// Whether the operation is done, and the waker that waits for it.
    pub open spec fn waiting(self) -> Waiting {
        Waiting { over: self.done, waker: self.waker@ }
    }

    /// Registers a waker in place of the one that was registered before.
    pub fn register(&mut self, waker: usize)
        ensures
            final(self).done == old(self).done,
            final(self).result == old(self).result,
            final(self).waiting() == old(self).waiting().apply(WaitStep::Register(waker)),
    {
        self.waker.register(waker);
    }

    /// The result of an operation that is done; it is handed out once.
    pub fn take_result(&mut self) -> (result: Poll<OperationResult>)
        requires
            old(self).done ==> old(self).result is Some,
        ensures
            final(self).waiting() == old(self).waiting(),
            result == (if old(self).done {
                Poll::Ready(old(self).result->0)
            } else {
                Poll::Pending
            }),
            final(self).result == (if old(self).done {
                None
            } else {
                old(self).result
            }),
    {
        if self.done {
            match self.result {
                Some(result) => {
                    self.result = None;
                    Poll::Ready(result)
                },
                None => Poll::Pending,
            }
        } else {
            Poll::Pending
        }
    }
}

/// An operation.
#[derive(PartialEq, Eq, Debug)]
pub struct Operation {
    pub submit_state: SubmitState,
    pub shared: Shared,
}

impl Operation {
    /// An operation that is yet to be submitted.
    pub fn new(sqe: io_uring_sqe) -> (operation: Operation)
        ensures
            operation.submit_state == (SubmitState::Unsubmitted { sqe }),
            operation.shared.waiting() == (Waiting { over: false, waker: None }),
            operation.shared.result is None,
    {
        Operation {
            submit_state: SubmitState::Unsubmitted { sqe },
            shared: Shared { done: false, result: None, waker: WakerSlot::new() },
        }
    }

    /// Polls an operation that was submitted and whose result has not been taken. The waker is
    /// registered in place of the one before, and only then it is looked whether the operation is
    /// done. Once it is the result is handed out, once.
    pub fn poll(&mut self, waker: usize) -> (result: Poll<OperationResult>)
        requires
            old(self).submit_state is Submitted,
            old(self).shared.done ==> old(self).shared.result is Some,
        ensures
            final(self).submit_state == old(self).submit_state,
            final(self).shared.waiting() == old(self).shared.waiting().apply(
                WaitStep::Register(waker),
            ),
            result == (if old(self).shared.done {
                Poll::Ready(old(self).shared.result->0)
            } else {
                Poll::Pending
            }),
            final(self).shared.result == (if old(self).shared.done {
                None
            } else {
                old(self).shared.result
            }),
    {
        self.shared.register(waker);
        self.shared.take_result()
    }

    /// The operation that the ring has to be told of where this one is given up: one that was
    /// submitted.
    pub fn to_cancel(&self) -> (op_id: Option<u64>)
        ensures
            op_id == (match self.submit_state {
                SubmitState::Unsubmitted { sqe } => None,
                SubmitState::Submitted { op_id } => Some(op_id),
            }),
    {
        match self.submit_state {
            SubmitState::Unsubmitted { .. } => None,
            SubmitState::Submitted { op_id } => Some(op_id),
        }
    }
}

} // verus!
