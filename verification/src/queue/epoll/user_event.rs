//! Events that a program raises itself, over a counter that `epoll` watches.
use crossbeam::queue::SegQueue;
use vstd::prelude::*;

use super::filter::Filter;
#[allow(unused_imports)]
use super::filter::EPOLLIN;
use super::registration::rearm_mask;
#[allow(unused_imports)]
use super::registration::single_event;
use crate::error::{check_descriptor, check_status, Error, ErrorKind};
use crate::queue::segment::{queue_new, queue_pop, queue_push};
#[allow(unused_imports)]
use crate::queue::segment::queue_items;

verus! {

/// Whether the counter is armed, and the values that wait for the handler. Each method is one step
/// that no other step divides.
pub struct UserEvent {
    armed: bool,
    values: SegQueue<usize>,
}

/// What a [`UserEvent`] holds.
#[verifier::ext_equal]
pub struct UserEventModel {
    pub armed: bool,
    pub values: Seq<usize>,
}

impl View for UserEvent {
    type V = UserEventModel;

    closed spec fn view(&self) -> UserEventModel {
        UserEventModel { armed: self.armed, values: queue_items(self.values) }
    }
}

/// A step of making an event, or what it came to: the descriptor of its counter.
#[derive(Clone, Copy, PartialEq, Eq, Debug)]
pub enum CreateStep {
    /// Make a counter at zero.
    CreateCounter,
    /// Add the counter to the event queue, for no event yet.
    Add { fd: i32 },
    Over(Result<i32, Error>),
}

impl CreateStep {
    /// The step that follows a system call.
    pub open spec fn after(self, returned: i32, last_error: Error) -> CreateStep {
        match self {
            CreateStep::CreateCounter => if returned < 0 {
                CreateStep::Over(Err(last_error))
            } else {
                CreateStep::Add { fd: returned }
            },
            CreateStep::Add { fd } => if returned != 0 {
                CreateStep::Over(Err(last_error))
            } else {
                CreateStep::Over(Ok(fd))
            },
            CreateStep::Over(result) => self,
        }
    }

    /// The step that follows a system call; `last_error` is the error that it left.
    pub fn next(self, returned: i32, last_error: Error) -> (step: CreateStep)
        ensures
            step == (match self {
                CreateStep::CreateCounter => if returned < 0 {
                    CreateStep::Over(Err(last_error))
                } else {
                    CreateStep::Add { fd: returned }
                },
                CreateStep::Add { fd } => if returned != 0 {
                    CreateStep::Over(Err(last_error))
                } else {
                    CreateStep::Over(Ok(fd))
                },
                CreateStep::Over(result) => self,
            }),
            step == self.after(returned, last_error),
    {
        match self {
            CreateStep::CreateCounter => match check_descriptor(returned, last_error) {
                Ok(fd) => CreateStep::Add { fd },
                Err(error) => CreateStep::Over(Err(error)),
            },
            CreateStep::Add { fd } => match check_status(returned, last_error) {
                Ok(_) => CreateStep::Over(Ok(fd)),
                Err(error) => CreateStep::Over(Err(error)),
            },
            CreateStep::Over(result) => CreateStep::Over(result),
        }
    }
}

/// A step of raising an event, or what it came to.
#[derive(Clone, Copy, PartialEq, Eq, Debug)]
pub enum TriggerStep {
    /// Ask the event queue to watch the counter, with this mask.
    Arm { mask: u32 },
    /// Add one to the counter.
    WriteCounter,
    Over(Result<(), Error>),
}

impl TriggerStep {
    /// The step that follows a system call: the event is armed before the counter is written, and
    /// writing is taken up again where it was interrupted.
    pub open spec fn after(self, returned: isize, last_error: Error) -> TriggerStep {
        match self {
            TriggerStep::Arm { mask } => if returned != 0 {
                TriggerStep::Over(Err(last_error))
            } else {
                TriggerStep::WriteCounter
            },
            TriggerStep::WriteCounter => if returned >= 0 {
                TriggerStep::Over(Ok(()))
            } else if last_error.spec_kind() == ErrorKind::Interrupted {
                TriggerStep::WriteCounter
            } else {
                TriggerStep::Over(Err(last_error))
            },
            TriggerStep::Over(result) => self,
        }
    }

    /// The step that follows a system call; `last_error` is the error that it left.
    pub fn next(self, returned: isize, last_error: Error) -> (step: TriggerStep)
        ensures
            step == self.after(returned, last_error),
    {
        match self {
            TriggerStep::Arm { .. } => if returned != 0 {
                TriggerStep::Over(Err(last_error))
            } else {
                TriggerStep::WriteCounter
            },
            TriggerStep::WriteCounter => if returned >= 0 {
                TriggerStep::Over(Ok(()))
            } else if last_error.kind() == ErrorKind::Interrupted {
                TriggerStep::WriteCounter
            } else {
                TriggerStep::Over(Err(last_error))
            },
            TriggerStep::Over(result) => TriggerStep::Over(result),
        }
    }
}

/// The first step of raising an event, by whether it is armed already.
pub open spec fn first_step(armed: bool) -> TriggerStep {
    if armed {
        TriggerStep::Over(Ok(()))
    } else {
        TriggerStep::Arm { mask: single_event(Filter(EPOLLIN)) }
    }
}

impl UserEvent {
    /// An event that is not armed and has no value.
    pub fn new() -> (event: UserEvent)
        ensures
            event@ == UserEventModel::fresh(),
    {
        UserEvent { armed: false, values: queue_new() }
    }

    /// Adds a value for the handler, and returns what is to be done next. Where the event is armed
    /// already the delivery that is due takes the value along.
    pub fn trigger(&mut self, data: usize) -> (step: TriggerStep)
        ensures
            step == (if old(self)@.armed {
                TriggerStep::Over(Ok(()))
            } else {
                TriggerStep::Arm { mask: single_event(Filter(EPOLLIN)) }
            }),
            step == first_step(old(self)@.armed),
            final(self)@ == old(self)@.apply(UserEventOp::Trigger(data)),
    {
        let armed: bool = self.armed;
        self.armed = true;
        queue_push(&mut self.values, data);
        if armed {
            TriggerStep::Over(Ok(()))
        } else {
            TriggerStep::Arm { mask: rearm_mask(Filter(EPOLLIN)) }
        }
    }

    /// Marks the event as not armed, and returns whether it was.
    pub fn disarm(&mut self) -> (armed: bool)
        ensures
            armed == old(self)@.armed,
            final(self)@ == old(self)@.apply(UserEventOp::Disarm),
    {
        let armed: bool = self.armed;
        self.armed = false;
        armed
    }

    /// Takes the value that waited longest for the handler, if one waits.
    pub fn pop_value(&mut self) -> (value: Option<usize>)
        ensures
            value == (if old(self)@.values.len() > 0 {
                Some(old(self)@.values.first())
            } else {
                None
            }),
            final(self)@ == old(self)@.apply(UserEventOp::Pop),
    {
        queue_pop(&mut self.values)
    }
}

/// The steps that change a [`UserEvent`].
pub enum UserEventOp {
    Trigger(usize),
    Disarm,
    Pop,
}

impl UserEventModel {
    /// An event that is not armed and has no value.
    pub open spec fn fresh() -> UserEventModel {
        UserEventModel { armed: false, values: Seq::empty() }
    }

    /// The event after one step.
    pub open spec fn apply(self, op: UserEventOp) -> UserEventModel {
        match op {
            UserEventOp::Trigger(data) => UserEventModel {
                armed: true,
                values: self.values.push(data),
            },
            UserEventOp::Disarm => UserEventModel { armed: false, values: self.values },
            UserEventOp::Pop => UserEventModel {
                armed: self.armed,
                values: if self.values.len() > 0 {
                    self.values.drop_first()
                } else {
                    self.values
                },
            },
        }
    }

    /// The event after a succession of steps, whoever makes them.
    pub open spec fn run(self, ops: Seq<UserEventOp>) -> UserEventModel
        decreases ops.len(),
    {
        if ops.len() == 0 {
            self
        } else {
            self.run(ops.drop_last()).apply(ops.last())
        }
    }

    /// The values that a succession of steps handed to the handler.
    pub open spec fn handled(self, ops: Seq<UserEventOp>) -> Seq<usize>
        decreases ops.len(),
    {
        if ops.len() == 0 {
            Seq::empty()
        } else {
            let values = self.run(ops.drop_last()).values;
            self.handled(ops.drop_last()) + (if ops.last() is Pop && values.len() > 0 {
                seq![values.first()]
            } else {
                Seq::empty()
            })
        }
    }
}

/// The values that a succession of steps raised the event with.
pub open spec fn raised(ops: Seq<UserEventOp>) -> Seq<usize>
    decreases ops.len(),
{
    if ops.len() == 0 {
        Seq::empty()
    } else {
        match ops.last() {
            UserEventOp::Trigger(data) => raised(ops.drop_last()).push(data),
            _ => raised(ops.drop_last()),
        }
    }
}

/// Whether a succession of steps ends within a delivery: the event was disarmed, and its values have
/// not run out since.
pub open spec fn delivering(ops: Seq<UserEventOp>) -> bool
    decreases ops.len(),
{
    if ops.len() == 0 {
        false
    } else {
        match ops.last() {
            UserEventOp::Trigger(data) => delivering(ops.drop_last()),
            UserEventOp::Disarm => true,
            UserEventOp::Pop => delivering(ops.drop_last()) && UserEventModel::fresh().run(
                ops.drop_last(),
            ).values.len() > 0,
        }
    }
}

/// The handler gets every value once and in the order in which they were raised: what it got so far
/// and what still waits is what was raised.
pub proof fn law_values_are_handled_once_in_order(ops: Seq<UserEventOp>)
    ensures
        UserEventModel::fresh().handled(ops) + UserEventModel::fresh().run(ops).values == raised(ops),
    decreases ops.len(),
{
    if ops.len() > 0 {
        law_values_are_handled_once_in_order(ops.drop_last());
        let handled = UserEventModel::fresh().handled(ops.drop_last());
        let values = UserEventModel::fresh().run(ops.drop_last()).values;
        match ops.last() {
            UserEventOp::Trigger(data) => {
                assert(handled + Seq::<usize>::empty() + values.push(data) == (handled
                    + values).push(data));
            },
            UserEventOp::Pop => {
                if values.len() > 0 {
                    assert(handled + seq![values.first()] + values.drop_first() == handled
                        + values);
                }
            },
            UserEventOp::Disarm => {},
        }
    }
}

/// No value is forgotten: outside of a delivery, the event is armed whenever a value waits.
pub proof fn law_waiting_value_is_announced(ops: Seq<UserEventOp>)
    requires
        !delivering(ops),
    ensures
        UserEventModel::fresh().run(ops).values.len() > 0 ==> UserEventModel::fresh().run(ops).armed,
    decreases ops.len(),
{
    if ops.len() > 0 && ops.last() is Pop && !delivering(ops.drop_last()) {
        law_waiting_value_is_announced(ops.drop_last());
    }
}

/// Raising an event goes through only once the queue watches the counter and the counter has been
/// written: a call that succeeds leads on to the next, a failure is what it comes to, with the error
/// of the call, and only writing is taken up again where it was interrupted.
pub proof fn law_raising_goes_through_both_calls(
    mask: u32,
    returned: isize,
    code: i32,
    kind: ErrorKind,
)
    ensures
        ({
            let error = Error::Os { code, kind };
            let armed = (TriggerStep::Arm { mask }).after(returned, error);
            let written = TriggerStep::WriteCounter.after(returned, error);
            &&& armed == TriggerStep::WriteCounter <==> returned == 0
            &&& armed == TriggerStep::Over(Err(error)) <==> returned != 0
            &&& written == TriggerStep::Over(Ok(())) <==> returned >= 0
            &&& written == TriggerStep::WriteCounter <==> returned < 0 && kind
                == ErrorKind::Interrupted
            &&& written == TriggerStep::Over(Err(error)) <==> returned < 0 && kind
                != ErrorKind::Interrupted
        }),
{
}

/// Raising an event adds its value behind those that wait and leaves the event armed; disarming it
/// takes no value away, and a value that is handed out leaves the others, and whether the event is
/// armed, alone.
pub proof fn law_user_event_steps_keep_apart(event: UserEventModel, data: usize, at: int)
    ensures
        event.apply(UserEventOp::Trigger(data)).armed,
        event.apply(UserEventOp::Trigger(data)).values.len() == event.values.len() + 1,
        event.apply(UserEventOp::Trigger(data)).values[event.values.len() as int] == data,
        0 <= at < event.values.len() ==> event.apply(UserEventOp::Trigger(data)).values[at]
            == event.values[at],
        !event.apply(UserEventOp::Disarm).armed,
        event.apply(UserEventOp::Disarm).values == event.values,
        event.apply(UserEventOp::Pop).armed == event.armed,
        event.values.len() == 0 ==> event.apply(UserEventOp::Pop).values.len() == 0,
        event.values.len() > 0 ==> event.apply(UserEventOp::Pop).values.len() == event.values.len()
            - 1,
        0 <= at < event.values.len() - 1 ==> event.apply(UserEventOp::Pop).values[at]
            == event.values[at + 1],
{
}

/// An event comes about by two calls: its counter is made, and then added to the queue; only where
/// both succeed is there an event, with that counter, and the first failure is what it comes to
/// otherwise.
pub proof fn law_event_is_made_by_two_calls(returned: i32, fd: i32, last_error: Error)
    ensures
        CreateStep::CreateCounter.after(returned, last_error) == (CreateStep::Add { fd }) <==> returned
            >= 0 && fd == returned,
        CreateStep::CreateCounter.after(returned, last_error) == CreateStep::Over(Err(last_error))
            <==> returned < 0,
        (CreateStep::Add { fd }).after(returned, last_error) == CreateStep::Over(Ok(fd)) <==> returned
            == 0,
        (CreateStep::Add { fd }).after(returned, last_error) == CreateStep::Over(Err(last_error))
            <==> returned != 0,
{
}

/// Raising an event asks the queue to watch the counter only where it does not watch it already: for
/// a single edge that can be read. Otherwise the delivery that is due is enough.
pub proof fn law_event_is_announced_once(armed: bool)
    ensures
        first_step(armed) is Over <==> armed,
        first_step(armed) is Over ==> first_step(armed)->0 is Ok,
        !armed ==> first_step(armed) == (TriggerStep::Arm { mask: 0xc000_0001 }),
{
    assert(0x1u32 | 0x8000_0000u32 | 0x4000_0000u32 == 0xc000_0001u32) by (bit_vector);
}

} // verus!
