//! The readiness of an object that is told by a flag alone, as that of a mach port.
use crossbeam::queue::SegQueue;
use vstd::prelude::*;

use super::segment::{queue_drain, queue_new, queue_pop, queue_push};
#[allow(unused_imports)]
use super::segment::queue_items;

verus! {

/// A flag that says whether the object is taken to be ready, and the wakers that wait for it. Each
/// method is one step that no other step divides.
pub struct FlagState {
    ready: bool,
    listeners: SegQueue<usize>,
}

/// What a [`FlagState`] holds.
#[verifier::ext_equal]
pub struct FlagModel {
    pub ready: bool,
    pub listeners: Seq<usize>,
}

impl View for FlagState {
    type V = FlagModel;

    closed spec fn view(&self) -> FlagModel {
        FlagModel { ready: self.ready, listeners: queue_items(self.listeners) }
    }
}

impl FlagState {
    /// A state that is ready and has no listener.
    pub fn new() -> (state: FlagState)
        ensures
            state@ == (FlagModel { ready: true, listeners: Seq::empty() }),
    {
        FlagState { ready: true, listeners: queue_new() }
    }

    /// Whether the object is taken to be ready.
    pub fn is_ready(&self) -> (ready: bool)
        ensures
            ready == self@.ready,
    {
        self.ready
    }

    /// Adds a waker to those that the next event wakes.
    pub fn subscribe(&mut self, waker: usize)
        ensures
            final(self)@ == old(self)@.apply(FlagOp::Subscribe(waker)),
    {
        queue_push(&mut self.listeners, waker);
    }

    /// Marks the object as not ready and returns whether it was ready before. The caller that finds
    /// it was has to ask the operating system for the next event.
    pub fn clear(&mut self) -> (was_ready: bool)
        ensures
            was_ready == old(self)@.ready,
            final(self)@ == old(self)@.apply(FlagOp::Clear),
    {
        let was_ready: bool = self.ready;
        self.ready = false;
        was_ready
    }

    /// Takes in an event: the object is ready again. Returns whether it was; where it was not, the
    /// wakers that waited are to be handed out after this.
    pub fn raise(&mut self) -> (was_ready: bool)
        ensures
            was_ready == old(self)@.ready,
            final(self)@ == old(self)@.apply(FlagOp::Raise),
    {
        let was_ready: bool = self.ready;
        self.ready = true;
        was_ready
    }

    /// Hands out the waker that waited longest, if one waits.
    pub fn pop(&mut self) -> (waker: Option<usize>)
        ensures
            waker == (if old(self)@.listeners.len() > 0 {
                Some(old(self)@.listeners.first())
            } else {
                None
            }),
            final(self)@ == old(self)@.apply(FlagOp::Pop),
    {
        queue_pop(&mut self.listeners)
    }

    /// Takes in an event: the object is ready again, and where it was not, every waker that waited
    /// is handed out in the order of subscription.
    pub fn deliver(&mut self) -> (wakers: Vec<usize>)
        ensures
            wakers@ == (if old(self)@.ready {
                Seq::<usize>::empty()
            } else {
                old(self)@.listeners
            }),
            final(self)@ == old(self)@.apply(FlagOp::Deliver),
    {
        if self.raise() {
            Vec::new()
        } else {
            queue_drain(&mut self.listeners)
        }
    }
}

/// The steps that change a [`FlagState`].
pub enum FlagOp {
    Subscribe(usize),
    Clear,
    /// An event comes.
    Raise,
    /// A waker is handed out.
    Pop,
    /// An event comes, and every waker is handed out with nothing in between, where the object was
    /// not ready.
    Deliver,
}

impl FlagModel {
    /// The state after one step.
    pub open spec fn apply(self, op: FlagOp) -> FlagModel {
        match op {
            FlagOp::Subscribe(waker) => FlagModel {
                ready: self.ready,
                listeners: self.listeners.push(waker),
            },
            FlagOp::Clear => FlagModel { ready: false, listeners: self.listeners },
            FlagOp::Raise => FlagModel { ready: true, listeners: self.listeners },
            FlagOp::Pop => FlagModel {
                ready: self.ready,
                listeners: if self.listeners.len() > 0 {
                    self.listeners.drop_first()
                } else {
                    self.listeners
                },
            },
            FlagOp::Deliver => if self.ready {
                self
            } else {
                FlagModel { ready: true, listeners: Seq::empty() }
            },
        }
    }

    /// The state after a succession of steps, whoever makes them.
    pub open spec fn run(self, ops: Seq<FlagOp>) -> FlagModel
        decreases ops.len(),
    {
        if ops.len() == 0 {
            self
        } else {
            self.run(ops.drop_last()).apply(ops.last())
        }
    }
}

/// The wakers that a succession of steps put into the queue.
pub open spec fn flag_subscribed(ops: Seq<FlagOp>) -> Seq<usize>
    decreases ops.len(),
{
    if ops.len() == 0 {
        Seq::empty()
    } else {
        match ops.last() {
            FlagOp::Subscribe(waker) => flag_subscribed(ops.drop_last()).push(waker),
            _ => flag_subscribed(ops.drop_last()),
        }
    }
}

impl FlagModel {
    /// The wakers that a succession of steps handed out.
    pub open spec fn woken(self, ops: Seq<FlagOp>) -> Seq<usize>
        decreases ops.len(),
    {
        if ops.len() == 0 {
            Seq::empty()
        } else {
            let model = self.run(ops.drop_last());
            self.woken(ops.drop_last()) + (match ops.last() {
                FlagOp::Pop => if model.listeners.len() > 0 {
                    seq![model.listeners.first()]
                } else {
                    Seq::empty()
                },
                FlagOp::Deliver => if model.ready {
                    Seq::empty()
                } else {
                    model.listeners
                },
                _ => Seq::empty(),
            })
        }
    }
}

/// Whether neither an event nor a waker that is handed out is among the steps.
pub open spec fn uneventful(ops: Seq<FlagOp>) -> bool {
    forall|at: int|
        0 <= at < ops.len() ==> {
            let op = #[trigger] ops[at];
            op is Subscribe || op is Clear
        }
}

/// Every waker is handed out once, and in the order of subscription, however the steps of several
/// threads fall between each other: those that were handed out and those that still wait are those
/// that went in.
pub proof fn law_flag_wakers_are_woken_once_in_order(model: FlagModel, ops: Seq<FlagOp>)
    ensures
        model.woken(ops) + model.run(ops).listeners == model.listeners + flag_subscribed(ops),
    decreases ops.len(),
{
    if ops.len() > 0 {
        let earlier = ops.drop_last();
        law_flag_wakers_are_woken_once_in_order(model, earlier);
        let woken = model.woken(earlier);
        let listeners = model.run(earlier).listeners;
        match ops.last() {
            FlagOp::Subscribe(waker) => {
                assert(woken + Seq::<usize>::empty() + listeners.push(waker) == (woken
                    + listeners).push(waker));
                assert((model.listeners + flag_subscribed(earlier)).push(waker) == model.listeners
                    + flag_subscribed(earlier).push(waker));
            },
            FlagOp::Pop => {
                if listeners.len() > 0 {
                    assert(woken + seq![listeners.first()] + listeners.drop_first() == woken
                        + listeners);
                }
            },
            _ => {},
        }
    }
}

/// An object that is marked as not ready stays so until an event comes, and until then its queue
/// only grows: a waker that went in is there when the event comes.
pub proof fn law_flag_subscription_lasts(model: FlagModel, ops: Seq<FlagOp>, waker: usize)
    requires
        uneventful(ops),
        model.listeners.contains(waker) || ops.contains(FlagOp::Subscribe(waker)),
    ensures
        !model.ready ==> !model.run(ops).ready,
        model.run(ops).listeners.contains(waker),
    decreases ops.len(),
{
    lemma_stays_unready(model, ops);
    if ops.len() > 0 {
        let earlier = ops.drop_last();
        assert(ops.last() == ops[ops.len() - 1]);
        assert forall|at: int| 0 <= at < earlier.len() implies {
            let op = #[trigger] earlier[at];
            op is Subscribe || op is Clear
        } by {
            assert(ops[at] == earlier[at]);
        }
        let listeners = model.run(earlier).listeners;
        if model.listeners.contains(waker) || earlier.contains(FlagOp::Subscribe(waker)) {
            law_flag_subscription_lasts(model, earlier, waker);
            let at = choose|at: int| 0 <= at < listeners.len() && listeners[at] == waker;
            assert(model.run(ops).listeners[at] == waker);
        } else {
            let at = choose|at: int| 0 <= at < ops.len() && ops[at] == FlagOp::Subscribe(waker);
            if at < ops.len() - 1 {
                assert(earlier[at] == FlagOp::Subscribe(waker));
            }
            assert(model.run(ops).listeners[listeners.len() as int] == waker);
        }
    }
}

proof fn lemma_stays_unready(model: FlagModel, ops: Seq<FlagOp>)
    requires
        uneventful(ops),
    ensures
        !model.ready ==> !model.run(ops).ready,
    decreases ops.len(),
{
    if ops.len() > 0 {
        let earlier = ops.drop_last();
        assert(ops.last() == ops[ops.len() - 1]);
        assert forall|at: int| 0 <= at < earlier.len() implies {
            let op = #[trigger] earlier[at];
            op is Subscribe || op is Clear
        } by {
            assert(ops[at] == earlier[at]);
        }
        lemma_stays_unready(model, earlier);
    }
}

/// The flag says what was last said of the object: that it is not ready where it was marked so, and
/// that it is where an event came. Neither a mark nor an event alone touches the wakers that wait.
pub proof fn law_flag_follows_marks_and_events(model: FlagModel, waker: usize)
    ensures
        !model.apply(FlagOp::Clear).ready,
        model.apply(FlagOp::Clear).listeners == model.listeners,
        model.apply(FlagOp::Raise).ready,
        model.apply(FlagOp::Raise).listeners == model.listeners,
        model.apply(FlagOp::Deliver).ready,
        !model.ready ==> model.apply(FlagOp::Deliver).listeners.len() == 0,
        model.ready ==> model.apply(FlagOp::Deliver).listeners == model.listeners,
        model.apply(FlagOp::Subscribe(waker)).ready == model.ready,
        model.apply(FlagOp::Pop).ready == model.ready,
{
}

/// A subscription puts its waker behind those that wait; a waker that is handed out is the one that
/// waited longest, and the others stay in their order.
pub proof fn law_flag_wakers_form_a_queue(model: FlagModel, waker: usize, at: int)
    ensures
        model.apply(FlagOp::Subscribe(waker)).listeners.len() == model.listeners.len() + 1,
        model.apply(FlagOp::Subscribe(waker)).listeners[model.listeners.len() as int] == waker,
        0 <= at < model.listeners.len() ==> model.apply(FlagOp::Subscribe(waker)).listeners[at]
            == model.listeners[at],
        model.listeners.len() == 0 ==> model.apply(FlagOp::Pop).listeners.len() == 0,
        model.listeners.len() > 0 ==> model.apply(FlagOp::Pop).listeners.len()
            == model.listeners.len() - 1,
        0 <= at < model.listeners.len() - 1 ==> model.apply(FlagOp::Pop).listeners[at]
            == model.listeners[at + 1],
{
}

} // verus!
