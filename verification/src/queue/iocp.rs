//! The event queue over an I/O completion port, and the operations that complete through it.
use vstd::prelude::*;

#[allow(unused_imports)]
use super::wait::{iocp_timeout, turn_capacity};
use super::wait::{event_capacity, iocp_wait_millis, WaitTime};
use crate::error::Error;
#[allow(unused_imports)]
use crate::error::ErrorKind;
use crate::poll::Poll;
use crate::waker::WakerSlot;

verus! {

/// No completion came in time.
pub const WAIT_TIMEOUT: i32 = 258;

/// The operation goes on.
pub const ERROR_IO_PENDING: i32 = 997;

/// The operation has not completed.
pub const ERROR_IO_INCOMPLETE: i32 = 996;

/// There is no such operation.
pub const ERROR_NOT_FOUND: i32 = 1168;

/// The state of an operation that has not completed.
pub const STATUS_PENDING: u32 = 0x103;

/// Do not report an operation that succeeds at once.
pub const FILE_SKIP_COMPLETION_PORT_ON_SUCCESS: u8 = 0x1;

/// Do not set the event of the handle.
pub const FILE_SKIP_SET_EVENT_ON_HANDLE: u8 = 0x2;

/// What the key of a completion stands for.
#[derive(Clone, Copy, PartialEq, Eq, Debug, Structural)]
pub enum TokenKind {
    OperationSource,
    UserEvent,
}

/// A completion as the port reports it.
#[derive(Clone, Copy, PartialEq, Eq, Debug, Structural)]
pub struct Completion {
    pub kind: TokenKind,
    pub key: usize,
    pub overlapped: usize,
}

/// The work that a completion asks for.
#[derive(Clone, Copy, PartialEq, Eq, Debug, Structural)]
pub enum Dispatch {
    /// Wake the task that waits for the operation.
    Wake { overlapped: usize },
    /// Hand the value to the handler of the user event.
    RunHandler { token: usize, value: usize },
}

/// How long and for how many completions a turn waits.
#[derive(Clone, Copy, PartialEq, Eq, Debug, Structural)]
pub struct Wait {
    pub capacity: usize,
    pub timeout: u32,
}

/// The work for one completion.
pub open spec fn completion_dispatch(completion: Completion) -> Dispatch {
    match completion.kind {
        TokenKind::OperationSource => Dispatch::Wake { overlapped: completion.overlapped },
        TokenKind::UserEvent => Dispatch::RunHandler {
            token: completion.key,
            value: completion.overlapped,
        },
    }
}

/// Begins a turn that waits no longer and takes in no more completions than it is told. The wait in
/// milliseconds has to fit the argument of the port.
pub fn turn_wait(max_wait: Option<WaitTime>, max_events: Option<usize>) -> (wait: Wait)
    requires
        max_wait matches Some(time) ==> time.wf() && time.secs * 1000 <= u64::MAX,
        iocp_timeout(max_wait) <= u32::MAX,
    ensures
        wait.capacity == turn_capacity(max_events),
        wait.timeout == iocp_timeout(max_wait),
{
    Wait { capacity: event_capacity(max_events), timeout: iocp_wait_millis(max_wait) }
}

/// Whether an error carries a code of the operating system.
pub open spec fn has_code(error: Error, expected: i32) -> bool {
    match error {
        Error::Os { code, kind } => code == expected,
        Error::Custom { kind, message } => false,
    }
}

fn carries_code(error: &Error, expected: i32) -> (carries: bool)
    ensures
        carries == has_code(*error, expected),
{
    match error.raw_os_error() {
        Some(code) => code == expected,
        None => false,
    }
}

/// The work for a succession of completions, in their order.
pub open spec fn dispatches(completions: Seq<Completion>) -> Seq<Dispatch> {
    completions.map_values(|completion: Completion| completion_dispatch(completion))
}

/// Whether a turn that failed so took in no completion in time, and did not fail at all.
pub open spec fn ran_out(error: Error, limited: bool) -> bool {
    has_code(error, WAIT_TIMEOUT) && limited
}

/// Ends the wait of a turn: the number of completions it took in, and the work that they ask for. A
/// turn that was given a span (`limited`) takes in none where the span ran out; any other failure
/// ends it.
pub fn turn_completions(answer: Result<Vec<Completion>, Error>, limited: bool) -> (result: Result<
    (usize, Vec<Dispatch>),
    Error,
>)
    ensures
        match answer {
            Ok(completions) => {
                &&& result is Ok
                &&& result->Ok_0.0 == completions@.len()
                &&& result->Ok_0.1@ == completions@.map_values(
                    |completion: Completion| completion_dispatch(completion),
                )
                &&& result->Ok_0.1@ == dispatches(completions@)
            },
            Err(error) => if has_code(error, WAIT_TIMEOUT) && limited {
                &&& result is Ok
                &&& result->Ok_0.0 == 0
                &&& result->Ok_0.1@.len() == 0
            } else {
                result == Err::<(usize, Vec<Dispatch>), Error>(error)
            },
        },
        answer matches Err(error) ==> (result is Ok <==> ran_out(error, limited)),
{
    match answer {
        Ok(completions) => {
            let mut work: Vec<Dispatch> = Vec::new();
            let count: usize = completions.len();
            for index in 0..count
                invariant
                    count == completions@.len(),
                    work@.len() == index,
                    forall|at: int|
                        0 <= at < index ==> work@[at] == completion_dispatch(
                            #[trigger] completions@[at],
                        ),
            {
                let completion: Completion = completions[index];
                match completion.kind {
                    TokenKind::OperationSource => {
                        work.push(Dispatch::Wake { overlapped: completion.overlapped });
                    },
                    TokenKind::UserEvent => {
                        work.push(
                            Dispatch::RunHandler {
                                token: completion.key,
                                value: completion.overlapped,
                            },
                        );
                    },
                }
            }
            Ok((count, work))
        },
        Err(error) => {
            if carries_code(&error, WAIT_TIMEOUT) && limited {
                Ok((0, Vec::new()))
            } else {
                Err(error)
            }
        },
    }
}

/// The modes that a handle is registered with: an operation that is over at once is not reported to
/// the port as well, since the memory behind it may be gone by then.
pub fn notification_modes() -> (modes: u8)
    ensures
        modes == FILE_SKIP_COMPLETION_PORT_ON_SUCCESS | FILE_SKIP_SET_EVENT_ON_HANDLE,
{
    FILE_SKIP_COMPLETION_PORT_ON_SUCCESS | FILE_SKIP_SET_EVENT_ON_HANDLE
}

/// An overlapped structure, by its number, and the waker of the task that waits for the operation
/// behind it.
#[derive(PartialEq, Eq, Debug)]
pub struct Overlapped {
    pub id: usize,
    pub waker: WakerSlot,
}

impl Overlapped {
    /// A structure without a waker.
    pub fn new(id: usize) -> (overlapped: Overlapped)
        ensures
            overlapped.id == id,
            overlapped.waker@ is None,
    {
        Overlapped { id, waker: WakerSlot::new() }
    }
}

/// A handle whose operations complete through the port, and the overlapped structure that the last
/// operation left for reuse.
#[derive(Debug)]
pub struct OperationSource {
    pub handle: usize,
    pub avail_overlapped: Option<usize>,
}

/// A step of registering a handle, or what it came to.
#[derive(Debug)]
pub enum RegisterStep {
    /// Set the notification modes of the handle.
    SetModes { handle: usize, modes: u8 },
    /// Add the handle to the port.
    Attach { handle: usize },
    Over(Result<OperationSource, Error>),
}

impl RegisterStep {
    /// The step that follows: the modes are set before the handle is added, and the first failure
    /// ends it.
    pub open spec fn after(self, answer: Result<(), Error>) -> RegisterStep {
        match answer {
            Ok(_) => match self {
                RegisterStep::SetModes { handle, modes } => RegisterStep::Attach { handle },
                RegisterStep::Attach { handle } => RegisterStep::Over(
                    Ok(OperationSource { handle, avail_overlapped: None }),
                ),
                RegisterStep::Over(result) => self,
            },
            Err(error) => RegisterStep::Over(Err(error)),
        }
    }

    /// The step that follows the answer.
    pub fn next(self, answer: Result<(), Error>) -> (step: RegisterStep)
        requires
            !(self is Over),
        ensures
            step == self.after(answer),
    {
        match answer {
            Ok(_) => match self {
                RegisterStep::SetModes { handle, .. } => RegisterStep::Attach { handle },
                RegisterStep::Attach { handle } => RegisterStep::Over(
                    Ok(OperationSource { handle, avail_overlapped: None }),
                ),
                RegisterStep::Over(result) => RegisterStep::Over(result),
            },
            Err(error) => RegisterStep::Over(Err(error)),
        }
    }
}

/// An operation, and the overlapped structure behind it until it has been polled to completion.
#[derive(Debug)]
pub struct Operation {
    pub overlapped: Option<usize>,
    pub source: usize,
}

/// What becomes of an operation that is given up.
#[derive(Clone, Copy, PartialEq, Eq, Debug, Structural)]
pub enum Release {
    /// It had been polled to completion.
    Nothing,
    /// Its overlapped structure can go.
    Drop(usize),
    /// It could not be called off: its overlapped structure has to stay, without a waker.
    Leak(usize),
}

/// The overlapped structure for the next operation: the one that was left, unless the port still
/// refers to it, else a new one.
pub open spec fn next_overlapped(avail: Option<usize>, unique: bool, fresh: usize) -> usize {
    match avail {
        Some(overlapped) => if unique {
            overlapped
        } else {
            fresh
        },
        None => fresh,
    }
}

/// The overlapped structure that starting or polling works on: that of the operation in progress, or
/// the one for the next operation.
pub open spec fn current_overlapped(
    this: Option<Operation>,
    avail: Option<usize>,
    unique: bool,
    fresh: usize,
) -> usize {
    match this {
        Some(operation) => match operation.overlapped {
            Some(overlapped) => overlapped,
            None => fresh,
        },
        None => next_overlapped(avail, unique, fresh),
    }
}

impl OperationSource {
    /// The first step of registering a handle.
    pub fn register_handle_raw(handle: usize) -> (step: RegisterStep)
        ensures
            step == (RegisterStep::SetModes {
                handle,
                modes: FILE_SKIP_COMPLETION_PORT_ON_SUCCESS | FILE_SKIP_SET_EVENT_ON_HANDLE,
            }),
    {
        RegisterStep::SetModes { handle, modes: notification_modes() }
    }

    /// Another source for the same handle, with no overlapped structure for reuse.
    pub fn another(&self) -> (source: OperationSource)
        ensures
            source == (OperationSource { handle: self.handle, avail_overlapped: None }),
    {
        OperationSource { handle: self.handle, avail_overlapped: None }
    }

    /// The overlapped structure for the next operation. `unique` says that nothing else refers to the
    /// structure that was left for reuse, and `fresh` is a new one.
    pub fn next_overlapped(&self, unique: bool, fresh: usize) -> (overlapped: usize)
        ensures
            overlapped == next_overlapped(self.avail_overlapped, unique, fresh),
    {
        match self.avail_overlapped {
            Some(overlapped) => if unique {
                overlapped
            } else {
                fresh
            },
            None => fresh,
        }
    }

    /// Begins an operation with `f`, which is given the overlapped structure for it. The waker is
    /// registered there before. The operation counts as started if and only if `f` returns
    /// `ERROR_IO_PENDING`; success and any other error mean that it is over or was never begun.
    pub fn start_operation<F: FnOnce(&Overlapped) -> Result<R, Error>, R>(
        &mut self,
        dest: &mut Option<Operation>,
        overlapped: &mut Overlapped,
        unique: bool,
        fresh: usize,
        waker: usize,
        f: F,
    ) -> (result: Poll<Result<R, Error>>)
        requires
            *old(dest) is None,
            old(overlapped).id == next_overlapped(old(self).avail_overlapped, unique, fresh),
            forall|structure: &Overlapped| call_requires(f, (structure,)),
        ensures
            final(self).handle == old(self).handle,
            final(self).avail_overlapped is None,
            final(overlapped).id == old(overlapped).id,
            final(overlapped).waker@ == Some(waker),
            match result {
                Poll::Ready(answer) => {
                    &&& call_ensures(f, (&*final(overlapped),), answer)
                    &&& answer matches Err(error) ==> !has_code(error, ERROR_IO_PENDING)
                    &&& *final(dest) is None
                },
                Poll::Pending => {
                    &&& exists|error: Error|
                        has_code(error, ERROR_IO_PENDING) && call_ensures(
                            f,
                            (&*final(overlapped),),
                            Err(error),
                        )
                    &&& *final(dest) == Some(
                        Operation {
                            overlapped: Some(old(overlapped).id),
                            source: old(self).handle,
                        },
                    )
                },
            },
    {
        self.avail_overlapped = None;
        overlapped.waker.register(waker);
        match f(overlapped) {
            Ok(value) => Poll::Ready(Ok(value)),
            Err(error) => {
                if carries_code(&error, ERROR_IO_PENDING) {
                    *dest = Some(
                        Operation { overlapped: Some(overlapped.id), source: self.handle },
                    );
                    Poll::Pending
                } else {
                    Poll::Ready(Err(error))
                }
            },
        }
    }
}

impl Operation {
    /// The overlapped structure that starting or polling works on: that of the operation in
    /// progress, or the one for the next operation.
    pub fn current_overlapped(
        this: &Option<Operation>,
        source: &OperationSource,
        unique: bool,
        fresh: usize,
    ) -> (overlapped: usize)
        ensures
            overlapped == current_overlapped(*this, source.avail_overlapped, unique, fresh),
    {
        match this {
            Some(operation) => match operation.overlapped {
                Some(overlapped) => overlapped,
                None => fresh,
            },
            None => source.next_overlapped(unique, fresh),
        }
    }

    /// Polls an operation that has not been polled to completion. Its waker is registered with the
    /// overlapped structure, in place of the one before, and only then `status` reads the state that
    /// the structure holds; `query` asks for the number of bytes, or the error, of an operation that
    /// has left `STATUS_PENDING`. The structure of an operation that succeeded goes back to `source`,
    /// the source that began it.
    pub fn poll<S: FnOnce(&Overlapped) -> u32, Q: FnOnce(usize) -> Result<u32, Error>>(
        &mut self,
        source: &mut OperationSource,
        overlapped: &mut Overlapped,
        waker: usize,
        status: S,
        query: Q,
    ) -> (result: Poll<Result<usize, Error>>)
        requires
            old(self).overlapped == Some(old(overlapped).id),
            forall|structure: &Overlapped| call_requires(status, (structure,)),
            call_requires(query, (old(overlapped).id,)),
        ensures
            final(self).source == old(self).source,
            final(source).handle == old(source).handle,
            final(overlapped).id == old(overlapped).id,
            final(overlapped).waker@ == Some(waker),
            exists|state: u32|
                {
                    &&& #[trigger] call_ensures(status, (&*final(overlapped),), state)
                    &&& state == STATUS_PENDING ==> result is Pending
                    &&& state != STATUS_PENDING ==> exists|answer: Result<u32, Error>|
                        {
                            &&& #[trigger] call_ensures(query, (old(overlapped).id,), answer)
                            &&& result == polled(answer)
                        }
                },
            final(self).overlapped == (if result is Ready && result->Ready_0 is Ok {
                None
            } else {
                old(self).overlapped
            }),
            final(source).avail_overlapped == (if result is Ready && result->Ready_0 is Ok {
                old(self).overlapped
            } else {
                old(source).avail_overlapped
            }),
    {
        overlapped.waker.register(waker);
        let state: u32 = status(overlapped);
        assert(call_ensures(status, (&*overlapped,), state));
        if state == STATUS_PENDING {
            return Poll::Pending;
        }
        let id: usize = overlapped.id;
        let answer: Result<u32, Error> = query(id);
        assert(call_ensures(query, (id,), answer));
        match answer {
            Ok(bytes) => {
                self.overlapped = None;
                source.avail_overlapped = Some(id);
                Poll::Ready(Ok(bytes as usize))
            },
            Err(error) => {
                if carries_code(&error, ERROR_IO_INCOMPLETE) {
                    Poll::Pending
                } else {
                    Poll::Ready(Err(error))
                }
            },
        }
    }

    /// Begins an operation with `start` where none is in progress, and polls the one that is
    /// otherwise. Either way the waker is registered with the overlapped structure before anything
    /// is done with it.
    pub fn start_or_poll<
        F: FnOnce(&Overlapped) -> Result<usize, Error>,
        S: FnOnce(&Overlapped) -> u32,
        Q: FnOnce(usize) -> Result<u32, Error>,
    >(
        this: &mut Option<Operation>,
        source: &mut OperationSource,
        overlapped: &mut Overlapped,
        unique: bool,
        fresh: usize,
        waker: usize,
        start: F,
        status: S,
        query: Q,
    ) -> (result: Poll<Result<usize, Error>>)
        requires
            *old(this) matches Some(operation) ==> operation.overlapped is Some,
            old(overlapped).id == current_overlapped(
                *old(this),
                old(source).avail_overlapped,
                unique,
                fresh,
            ),
            forall|structure: &Overlapped| call_requires(start, (structure,)),
            forall|structure: &Overlapped| call_requires(status, (structure,)),
            forall|id: usize| call_requires(query, (id,)),
        ensures
            final(source).handle == old(source).handle,
            final(overlapped).id == old(overlapped).id,
            final(overlapped).waker@ == Some(waker),
            match *old(this) {
                None => {
                    &&& final(source).avail_overlapped is None
                    &&& match result {
                        Poll::Ready(answer) => {
                            &&& call_ensures(start, (&*final(overlapped),), answer)
                            &&& answer matches Err(error) ==> !has_code(error, ERROR_IO_PENDING)
                            &&& *final(this) is None
                        },
                        Poll::Pending => {
                            &&& exists|error: Error|
                                has_code(error, ERROR_IO_PENDING) && call_ensures(
                                    start,
                                    (&*final(overlapped),),
                                    Err(error),
                                )
                            &&& *final(this) == Some(
                                Operation {
                                    overlapped: Some(old(overlapped).id),
                                    source: old(source).handle,
                                },
                            )
                        },
                    }
                },
                Some(operation) => {
                    let done = result is Ready && result->Ready_0 is Ok;
                    &&& exists|state: u32|
                        {
                            &&& #[trigger] call_ensures(status, (&*final(overlapped),), state)
                            &&& state == STATUS_PENDING ==> result is Pending
                            &&& state != STATUS_PENDING ==> exists|answer: Result<u32, Error>|
                                {
                                    &&& #[trigger] call_ensures(
                                        query,
                                        (old(overlapped).id,),
                                        answer,
                                    )
                                    &&& result == polled(answer)
                                }
                        }
                    &&& *final(this) == Some(
                        Operation {
                            overlapped: if done {
                                None
                            } else {
                                operation.overlapped
                            },
                            source: operation.source,
                        },
                    )
                    &&& final(source).avail_overlapped == (if done {
                        operation.overlapped
                    } else {
                        old(source).avail_overlapped
                    })
                },
            },
    {
        let mut current: Option<Operation> = None;
        core::mem::swap(&mut current, this);
        match current {
            None => source.start_operation(this, overlapped, unique, fresh, waker, start),
            Some(operation) => {
                let mut operation: Operation = operation;
                let result: Poll<Result<usize, Error>> = operation.poll(
                    source,
                    overlapped,
                    waker,
                    status,
                    query,
                );
                *this = Some(operation);
                result
            },
        }
    }

    /// Gives up an operation: one that has not been polled to completion is called off by `cancel`.
    /// It is no failure that the operation is over already. The waker of a structure that has to stay
    /// is forgotten.
    pub fn cancel<C: FnOnce(usize) -> Result<(), Error>>(
        &mut self,
        overlapped: &mut Overlapped,
        cancel: C,
    ) -> (release: Release)
        requires
            old(self).overlapped matches Some(id) ==> id == old(overlapped).id,
            forall|id: usize| call_requires(cancel, (id,)),
        ensures
            final(self).source == old(self).source,
            final(self).overlapped is None,
            final(overlapped).id == old(overlapped).id,
            final(overlapped).waker@ == (if release is Leak {
                None
            } else {
                old(overlapped).waker@
            }),
            match old(self).overlapped {
                None => release == Release::Nothing,
                Some(id) => exists|answer: Result<(), Error>|
                    {
                        &&& #[trigger] call_ensures(cancel, (id,), answer)
                        &&& release == (if answer is Ok || has_code(
                            answer->Err_0,
                            ERROR_NOT_FOUND,
                        ) {
                            Release::Drop(id)
                        } else {
                            Release::Leak(id)
                        })
                        &&& release == released(id, answer)
                    },
            },
    {
        let mut current: Option<usize> = None;
        core::mem::swap(&mut current, &mut self.overlapped);
        match current {
            None => Release::Nothing,
            Some(id) => {
                let answer: Result<(), Error> = cancel(id);
                assert(call_ensures(cancel, (id,), answer));
                match answer {
                    Ok(()) => Release::Drop(id),
                    Err(error) => if carries_code(&error, ERROR_NOT_FOUND) {
                        Release::Drop(id)
                    } else {
                        overlapped.waker.forget();
                        Release::Leak(id)
                    },
                }
            },
        }
    }
}

/// What becomes of an operation that was called off, by the answer to calling it off.
pub open spec fn released(id: usize, answer: Result<(), Error>) -> Release {
    if answer is Ok || has_code(answer->Err_0, ERROR_NOT_FOUND) {
        Release::Drop(id)
    } else {
        Release::Leak(id)
    }
}

/// What a poll comes to by the answer to the query.
pub open spec fn polled(answer: Result<u32, Error>) -> Poll<Result<usize, Error>> {
    match answer {
        Ok(bytes) => Poll::Ready(Ok(bytes as usize)),
        Err(error) => if has_code(error, ERROR_IO_INCOMPLETE) {
            Poll::Pending
        } else {
            Poll::Ready(Err(error))
        },
    }
}

/// An overlapped structure that the port still refers to is never used for another operation.
pub proof fn law_shared_overlapped_is_not_reused(avail: Option<usize>, fresh: usize)
    ensures
        next_overlapped(avail, false, fresh) == fresh,
{
}

/// An operation that left `STATUS_PENDING` is over with as many bytes as the query gave, whatever
/// their number, none included; it goes on only where the query says that it is incomplete, and any
/// other error of the query is what it comes to.
pub proof fn law_completed_operation_is_ready(answer: Result<u32, Error>, bytes: u32, error: Error)
    ensures
        polled(answer) == Poll::Ready(Ok::<usize, Error>(bytes as usize)) <==> answer == Ok::<
            u32,
            Error,
        >(bytes),
        polled(answer) is Pending <==> answer is Err && match answer->Err_0 {
            Error::Os { code, kind } => code == 996,
            Error::Custom { kind, message } => false,
        },
        answer == Err::<u32, Error>(error) && !(polled(answer) is Pending) ==> polled(answer)
            == Poll::Ready(Err::<usize, Error>(error)),
{
}

/// An error carries a code of the operating system where it came from there with that code, whatever
/// its class; an error of the library carries none.
pub proof fn law_codes_of_errors(code: i32, kind: ErrorKind, expected: i32, message: &'static str)
    ensures
        has_code(Error::Os { code, kind }, expected) <==> code == expected,
        !has_code(Error::Custom { kind, message }, expected),
{
}

/// A completion of an operation wakes the task of its own overlapped structure, whatever the key,
/// and one of a user event runs the handler of its own key with its value.
pub proof fn law_completion_reaches_its_own_target(completion: Completion, target: usize, value: usize)
    ensures
        completion_dispatch(completion) == (Dispatch::Wake { overlapped: target }) <==> completion.kind
            is OperationSource && completion.overlapped == target,
        completion_dispatch(completion) == (Dispatch::RunHandler { token: target, value })
            <==> completion.kind is UserEvent && completion.key == target && completion.overlapped
            == value,
{
}

/// The overlapped structure that was left is used again where there is one and nothing else refers
/// to it, and only there; an operation in progress stays with its own.
pub proof fn law_overlapped_structure_is_chosen(
    this: Option<Operation>,
    avail: Option<usize>,
    unique: bool,
    fresh: usize,
)
    ensures
        unique && avail is Some ==> next_overlapped(avail, unique, fresh) == avail->0,
        !unique || avail is None ==> next_overlapped(avail, unique, fresh) == fresh,
        this is None ==> current_overlapped(this, avail, unique, fresh) == next_overlapped(
            avail,
            unique,
            fresh,
        ),
        this is Some && this->0.overlapped is Some ==> Some(
            current_overlapped(this, avail, unique, fresh),
        ) == this->0.overlapped,
{
}

/// A handle is registered by two calls, its modes first: only where both succeed is there a source,
/// for that handle, and the first error is what it comes to otherwise.
pub proof fn law_handle_is_registered_by_two_calls(
    handle: usize,
    modes: u8,
    error: Error,
)
    ensures
        ({
            let first = RegisterStep::SetModes { handle, modes };
            let second = first.after(Ok(()));
            &&& first.after(Err(error)) == RegisterStep::Over(Err(error))
            &&& second == (RegisterStep::Attach { handle })
            &&& second.after(Err(error)) == RegisterStep::Over(Err(error))
            &&& second.after(Ok(())) is Over
            &&& second.after(Ok(()))->0 is Ok
            &&& second.after(Ok(()))->0->Ok_0.handle == handle
            &&& second.after(Ok(()))->0->Ok_0.avail_overlapped is None
        }),
{
}

/// A turn asks for the work of each of its completions, once and in their order: there is as much
/// work as there are completions, and each piece is for the completion at its place.
pub proof fn law_turn_serves_every_completion(
    completions: Seq<Completion>,
    rest: Seq<Completion>,
    at: int,
)
    ensures
        dispatches(completions).len() == completions.len(),
        0 <= at < completions.len() && completions[at].kind is OperationSource ==> dispatches(
            completions,
        )[at] == (Dispatch::Wake { overlapped: completions[at].overlapped }),
        0 <= at < completions.len() && completions[at].kind is UserEvent ==> dispatches(
            completions,
        )[at] == (Dispatch::RunHandler {
            token: completions[at].key,
            value: completions[at].overlapped,
        }),
        dispatches(completions + rest) == dispatches(completions) + dispatches(rest),
{
    assert(dispatches(completions + rest) =~= dispatches(completions) + dispatches(rest));
}

/// A turn that was given a span and took in nothing within it has not failed; any other failure, and
/// the same without a span, is one.
pub proof fn law_only_a_span_can_run_out(code: i32, kind: ErrorKind, limited: bool, message: &'static str)
    ensures
        ran_out(Error::Os { code, kind }, limited) <==> code == 258 && limited,
        !ran_out(Error::Custom { kind, message }, limited),
{
}

/// The structure of an operation that is given up goes only where the operating system let go of it:
/// where it called the operation off, or knows of none any more. It has to stay otherwise.
pub proof fn law_structure_stays_while_it_is_in_use(id: usize, code: i32, kind: ErrorKind)
    ensures
        released(id, Ok(())) == Release::Drop(id),
        released(id, Err(Error::Os { code, kind })) == Release::Drop(id) <==> code == 1168,
        released(id, Err(Error::Os { code, kind })) == Release::Leak(id) <==> code != 1168,
{
}

} // verus!
