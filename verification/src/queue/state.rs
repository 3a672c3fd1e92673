//! The readiness of one direction of a registered object, shared by every holder of the
//! registration.
use crossbeam::queue::SegQueue;
use vstd::prelude::*;

use super::segment::{queue_drain, queue_new, queue_pop, queue_push};
#[allow(unused_imports)]
use super::segment::queue_items;

verus! {

/// A sequence number and the wakers that wait for it to move on.
///
/// When the number is even the object is taken to be ready, when it is odd it is not. The number
/// also tells whether a task is already subscribed to the notification that is due. Each method is
/// one step that no other step divides.
pub struct RegistrationState {
    sequence: usize,
    listeners: SegQueue<usize>,
}

/// What a [`RegistrationState`] holds.
#[verifier::ext_equal]
pub struct StateModel {
    pub sequence: usize,
    pub listeners: Seq<usize>,
}

impl View for RegistrationState {
    type V = StateModel;

    closed spec fn view(&self) -> StateModel {
        StateModel { sequence: self.sequence, listeners: queue_items(self.listeners) }
    }
}

/// The smallest odd number that is not below `sequence`: what setting the low bit gives.
pub open spec fn not_ready(sequence: usize) -> usize {
    if sequence % 2 == 0 {
        (sequence + 1) as usize
    } else {
        sequence
    }
}

/// The number that follows `sequence`, zero after the last.
pub open spec fn successor(sequence: usize) -> usize {
    if sequence == usize::MAX {
        0
    } else {
        (sequence + 1) as usize
    }
}

impl StateModel {
    /// Whether the object is taken to be ready.
    pub open spec fn ready(self) -> bool {
        self.sequence % 2 == 0
    }
}

impl RegistrationState {
    /// A state that is ready and has no listener.
    pub fn new() -> (state: RegistrationState)
        ensures
            state@ == (StateModel { sequence: 0, listeners: Seq::empty() }),
    {
        RegistrationState { sequence: 0, listeners: queue_new() }
    }

    /// The current sequence number.
    pub fn sequence(&self) -> (sequence: usize)
        ensures
            sequence == self@.sequence,
    {
        self.sequence
    }

    /// Adds a waker to those that the next event wakes.
    pub fn subscribe(&mut self, waker: usize)
        ensures
            final(self)@ == old(self)@.apply(StateOp::Subscribe(waker)),
    {
        queue_push(&mut self.listeners, waker);
    }

    /// Marks the object as not ready and returns the sequence number from before. The caller that
    /// finds an even number there has to ask the operating system for the next event.
    pub fn clear(&mut self) -> (old_sequence: usize)
        ensures
            old_sequence == old(self)@.sequence,
            final(self)@ == old(self)@.apply(StateOp::Clear),
    {
        let sequence: usize = self.sequence;
        assert((sequence | 1) == not_ready(sequence)) by {
            assert(sequence % 2 == 0 ==> (sequence | 1) == sequence + 1) by (bit_vector);
            assert(sequence % 2 != 0 ==> (sequence | 1) == sequence) by (bit_vector);
        }
        self.sequence = sequence | 1;
        sequence
    }

    /// Takes in an event: the object is ready again. An event only comes to an object that is marked
    /// as not ready. The wakers that waited are to be handed out after this.
    pub fn advance(&mut self)
        requires
            !old(self)@.ready(),
        ensures
            final(self)@ == old(self)@.apply(StateOp::Advance),
            final(self)@.ready(),
    {
        self.sequence = self.sequence.wrapping_add(1);
    }

    /// Hands out the waker that waited longest, if one waits.
    pub fn pop(&mut self) -> (waker: Option<usize>)
        ensures
            waker == (if old(self)@.listeners.len() > 0 {
                Some(old(self)@.listeners.first())
            } else {
                None
            }),
            final(self)@ == old(self)@.apply(StateOp::Pop),
    {
        queue_pop(&mut self.listeners)
    }

    /// Takes in an event: the object is ready again, and every waker that waited is handed out in
    /// the order of subscription. An event only comes to an object that is marked as not ready.
    pub fn deliver(&mut self) -> (wakers: Vec<usize>)
        requires
            !old(self)@.ready(),
        ensures
            wakers@ == old(self)@.listeners,
            final(self)@ == old(self)@.apply(StateOp::Deliver),
            final(self)@.ready(),
    {
        self.advance();
        queue_drain(&mut self.listeners)
    }
}

/// The steps that change a [`RegistrationState`].
pub enum StateOp {
    Subscribe(usize),
    Clear,
    /// An event comes.
    Advance,
    /// A waker is handed out.
    Pop,
    /// An event comes, and every waker is handed out with nothing in between.
    Deliver,
}

impl StateOp {
    /// Whether an event comes with this step.
    pub open spec fn is_event(self) -> bool {
        self is Advance || self is Deliver
    }
}

impl StateModel {
    /// The state after one step.
    pub open spec fn apply(self, op: StateOp) -> StateModel {
        match op {
            StateOp::Subscribe(waker) => StateModel {
                sequence: self.sequence,
                listeners: self.listeners.push(waker),
            },
            StateOp::Clear => StateModel {
                sequence: not_ready(self.sequence),
                listeners: self.listeners,
            },
            StateOp::Advance => StateModel {
                sequence: successor(self.sequence),
                listeners: self.listeners,
            },
            StateOp::Pop => StateModel {
                sequence: self.sequence,
                listeners: if self.listeners.len() > 0 {
                    self.listeners.drop_first()
                } else {
                    self.listeners
                },
            },
            StateOp::Deliver => StateModel {
                sequence: successor(self.sequence),
                listeners: Seq::empty(),
            },
        }
    }

    /// The state after a succession of steps, whoever makes them.
    pub open spec fn run(self, ops: Seq<StateOp>) -> StateModel
        decreases ops.len(),
    {
        if ops.len() == 0 {
            self
        } else {
            self.run(ops.drop_last()).apply(ops.last())
        }
    }

    /// Whether events come only while the object is marked as not ready.
    pub open spec fn legal(self, ops: Seq<StateOp>) -> bool
        decreases ops.len(),
    {
        ops.len() > 0 ==> {
            &&& self.legal(ops.drop_last())
            &&& ops.last().is_event() ==> !self.run(ops.drop_last()).ready()
        }
    }

    /// The wakers that a succession of steps handed out.
    pub open spec fn woken(self, ops: Seq<StateOp>) -> Seq<usize>
        decreases ops.len(),
    {
        if ops.len() == 0 {
            Seq::empty()
        } else {
            let listeners = self.run(ops.drop_last()).listeners;
            self.woken(ops.drop_last()) + (match ops.last() {
                StateOp::Pop => if listeners.len() > 0 {
                    seq![listeners.first()]
                } else {
                    Seq::empty()
                },
                StateOp::Deliver => listeners,
                _ => Seq::empty(),
            })
        }
    }

    /// How often the operating system is asked for an event: the steps that turn a ready state
    /// into one that is not.
    pub open spec fn arms(self, ops: Seq<StateOp>) -> int
        decreases ops.len(),
    {
        if ops.len() == 0 {
            0
        } else {
            self.arms(ops.drop_last()) + (if ops.last() is Clear && self.run(
                ops.drop_last(),
            ).ready() {
                1int
            } else {
                0
            })
        }
    }
}

/// The wakers that a succession of steps put into the queue.
pub open spec fn subscribed(ops: Seq<StateOp>) -> Seq<usize>
    decreases ops.len(),
{
    if ops.len() == 0 {
        Seq::empty()
    } else {
        match ops.last() {
            StateOp::Subscribe(waker) => subscribed(ops.drop_last()).push(waker),
            _ => subscribed(ops.drop_last()),
        }
    }
}

/// Whether no waker is handed out but together with an event.
pub open spec fn undivided(ops: Seq<StateOp>) -> bool {
    forall|at: int| 0 <= at < ops.len() ==> !(#[trigger] ops[at] is Pop)
}

/// How many events a succession of steps holds.
pub open spec fn deliveries(ops: Seq<StateOp>) -> int
    decreases ops.len(),
{
    if ops.len() == 0 {
        0
    } else {
        deliveries(ops.drop_last()) + (if ops.last().is_event() {
            1int
        } else {
            0
        })
    }
}

/// How far the sequence number moves, and that it comes round to an old value only after all the
/// others.
proof fn lemma_advance(model: StateModel, ops: Seq<StateOp>) -> (advance: int)
    requires
        model.legal(ops),
    ensures
        0 <= advance <= ops.len(),
        advance >= deliveries(ops) >= 0,
        model.run(ops).sequence == (model.sequence + advance) % (usize::MAX + 1),
    decreases ops.len(),
{
    if ops.len() == 0 {
        0
    } else {
        let before = lemma_advance(model, ops.drop_last());
        let sequence = model.run(ops.drop_last()).sequence;
        let advance = if model.run(ops).sequence == sequence {
            before
        } else {
            before + 1
        };
        if advance != before {
            let whole = model.sequence + before;
            let modulus = usize::MAX + 1;
            assert((whole + 1) % modulus == (if whole % modulus == usize::MAX {
                0
            } else {
                whole % modulus + 1
            })) by (nonlinear_arith)
                requires
                    modulus == usize::MAX + 1,
                    modulus > 1,
            ;
        }
        advance
    }
}

/// Every waker is handed out once, and in the order of subscription, however the steps of several
/// threads fall between each other: those that were handed out and those that still wait are those
/// that went in.
pub proof fn law_wakers_are_woken_once_in_order(model: StateModel, ops: Seq<StateOp>)
    ensures
        model.woken(ops) + model.run(ops).listeners == model.listeners + subscribed(ops),
    decreases ops.len(),
{
    if ops.len() > 0 {
        let earlier = ops.drop_last();
        law_wakers_are_woken_once_in_order(model, earlier);
        let woken = model.woken(earlier);
        let listeners = model.run(earlier).listeners;
        match ops.last() {
            StateOp::Subscribe(waker) => {
                assert(woken + Seq::<usize>::empty() + listeners.push(waker) == (woken
                    + listeners).push(waker));
                assert((model.listeners + subscribed(earlier)).push(waker) == model.listeners
                    + subscribed(earlier).push(waker));
            },
            StateOp::Pop => {
                if listeners.len() > 0 {
                    assert(woken + seq![listeners.first()] + listeners.drop_first() == woken
                        + listeners);
                }
            },
            _ => {},
        }
    }
}

proof fn lemma_pops(model: StateModel, before: Seq<StateOp>, count: nat)
    ensures
        ({
            let start = model.run(before);
            let end = model.run(before + Seq::new(count, |at: int| StateOp::Pop));
            &&& end.sequence == start.sequence
            &&& end.listeners == (if count < start.listeners.len() {
                start.listeners.skip(count as int)
            } else {
                Seq::empty()
            })
        }),
    decreases count,
{
    let ops = before + Seq::new(count, |at: int| StateOp::Pop);
    if count == 0 {
        assert(ops == before);
        assert(model.run(before).listeners.skip(0) == model.run(before).listeners);
    } else {
        let fewer = (count - 1) as nat;
        lemma_pops(model, before, fewer);
        assert(ops.drop_last() == before + Seq::new(fewer, |at: int| StateOp::Pop));
        let listeners = model.run(before).listeners;
        if fewer < listeners.len() {
            assert(listeners.skip(fewer as int).drop_first() == listeners.skip(count as int));
        }
    }
}

/// Taking in an event and handing out the wakers one by one, until none waits, comes to the same as
/// doing it all at once.
pub proof fn law_delivery_can_be_divided(model: StateModel, pops: nat)
    requires
        pops >= model.listeners.len(),
    ensures
        model.run(seq![StateOp::Advance] + Seq::new(pops, |at: int| StateOp::Pop)) == model.apply(
            StateOp::Deliver,
        ),
{
    let first = seq![StateOp::Advance];
    assert(first.drop_last() == Seq::<StateOp>::empty());
    assert(model.run(first.drop_last()) == model);
    assert(model.run(first) == model.apply(StateOp::Advance));
    lemma_pops(model, first, pops);
}

/// A waker that is in the queue stays there until an event comes, where wakers are handed out
/// together with events only.
pub proof fn law_subscription_lasts(model: StateModel, ops: Seq<StateOp>, waker: usize)
    requires
        undivided(ops),
        deliveries(ops) == 0,
        model.listeners.contains(waker) || ops.contains(StateOp::Subscribe(waker)),
    ensures
        model.run(ops).listeners.contains(waker),
    decreases ops.len(),
{
    if ops.len() > 0 {
        let earlier = ops.drop_last();
        assert(ops.last() == ops[ops.len() - 1]);
        assert forall|at: int| 0 <= at < earlier.len() implies !(#[trigger] earlier[at] is Pop) by {
            assert(ops[at] == earlier[at]);
        }
        lemma_deliveries_nonnegative(earlier);
        let listeners = model.run(earlier).listeners;
        if model.listeners.contains(waker) || earlier.contains(StateOp::Subscribe(waker)) {
            law_subscription_lasts(model, earlier, waker);
            let at = choose|at: int| 0 <= at < listeners.len() && listeners[at] == waker;
            assert(model.run(ops).listeners[at] == waker);
        } else {
            let at = choose|at: int|
                0 <= at < ops.len() && ops[at] == StateOp::Subscribe(waker);
            if at < ops.len() - 1 {
                assert(earlier[at] == StateOp::Subscribe(waker));
            }
            assert(model.run(ops).listeners[listeners.len() as int] == waker);
        }
    }
}

proof fn lemma_deliveries_nonnegative(ops: Seq<StateOp>)
    ensures
        deliveries(ops) >= 0,
    decreases ops.len(),
{
    if ops.len() > 0 {
        lemma_deliveries_nonnegative(ops.drop_last());
    }
}

/// No wakeup is lost to a race: where a task saw the object not ready, its waker was in the queue
/// then or went in since, and the sequence number reads the same afterwards, the waker is in the
/// queue, whatever the other holders of the registration did in between. The bound on the number of
/// steps keeps the sequence number from coming round. Where handing out is divided from the event,
/// it can come upon a waker that went in after the event.
pub proof fn law_pending_task_is_subscribed(model: StateModel, ops: Seq<StateOp>, waker: usize)
    requires
        model.legal(ops),
        undivided(ops),
        ops.len() <= usize::MAX,
        model.listeners.contains(waker) || ops.contains(StateOp::Subscribe(waker)),
        model.run(ops).sequence == model.sequence,
    ensures
        model.run(ops).listeners.contains(waker),
{
    let advance = lemma_advance(model, ops);
    assert(advance == 0) by (nonlinear_arith)
        requires
            0 <= advance <= usize::MAX,
            model.sequence == (model.sequence + advance) % (usize::MAX + 1),
            0 <= model.sequence <= usize::MAX,
    ;
    law_subscription_lasts(model, ops, waker);
}

/// The operating system is asked for one event at a time: from a ready state on, it has been asked
/// once more often than it has answered while the object is marked as not ready, and just as often
/// otherwise.
pub proof fn law_one_request_outstanding(model: StateModel, ops: Seq<StateOp>)
    requires
        model.ready(),
        model.legal(ops),
    ensures
        model.arms(ops) - deliveries(ops) == (if model.run(ops).ready() {
            0int
        } else {
            1
        }),
    decreases ops.len(),
{
    if ops.len() > 0 {
        law_one_request_outstanding(model, ops.drop_last());
    }
}

/// Marking an object as not ready and taking in an event are what they say, whatever the number: the
/// one leaves it not ready and the other ready again, neither touches the wakers that wait, and a
/// mark on an object that is not ready changes nothing.
pub proof fn law_readiness_follows_marks_and_events(model: StateModel)
    ensures
        model.apply(StateOp::Clear).sequence % 2 == 1,
        model.apply(StateOp::Clear).listeners == model.listeners,
        model.sequence % 2 == 1 ==> model.apply(StateOp::Clear) == model,
        model.sequence % 2 == 0 ==> model.apply(StateOp::Clear).sequence == model.sequence + 1,
        model.sequence % 2 == 1 ==> model.apply(StateOp::Advance).sequence % 2 == 0,
        model.apply(StateOp::Advance).listeners == model.listeners,
        model.sequence < usize::MAX ==> model.apply(StateOp::Advance).sequence == model.sequence + 1,
        model.sequence == usize::MAX ==> model.apply(StateOp::Advance).sequence == 0,
        model.ready() <==> model.sequence % 2 == 0,
{
    assert(usize::MAX % 2 == 1);
}

/// A subscription puts its waker behind those that wait and changes nothing else; a waker that is
/// handed out is the one that waited longest, and the others stay in their order.
pub proof fn law_wakers_form_a_queue(model: StateModel, waker: usize, at: int)
    ensures
        model.apply(StateOp::Subscribe(waker)).sequence == model.sequence,
        model.apply(StateOp::Subscribe(waker)).listeners.len() == model.listeners.len() + 1,
        model.apply(StateOp::Subscribe(waker)).listeners[model.listeners.len() as int] == waker,
        0 <= at < model.listeners.len() ==> model.apply(StateOp::Subscribe(waker)).listeners[at]
            == model.listeners[at],
        model.apply(StateOp::Pop).sequence == model.sequence,
        model.listeners.len() == 0 ==> model.apply(StateOp::Pop).listeners.len() == 0,
        model.listeners.len() > 0 ==> model.apply(StateOp::Pop).listeners.len()
            == model.listeners.len() - 1,
        0 <= at < model.listeners.len() - 1 ==> model.apply(StateOp::Pop).listeners[at]
            == model.listeners[at + 1],
        model.apply(StateOp::Deliver).listeners.len() == 0,
        model.apply(StateOp::Deliver).sequence == model.apply(StateOp::Advance).sequence,
{
}

} // verus!
