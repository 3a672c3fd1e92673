//! What the events that the system was asked for are for.
use std::collections::HashMap;
use vstd::prelude::*;

verus! {

broadcast use vstd::std_specs::hash::group_hash_axioms;

/// The events that are pending, by their number, each with what it is for: the registration or the
/// user event, with its handler. The table owns it until the event is taken out, so that it outlives
/// the handle of the program where the event is still to come.
pub struct Armed<T> {
    next: usize,
    tokens: HashMap<usize, T>,
}

/// What an [`Armed`] holds.
#[verifier::reject_recursive_types(T)]
#[verifier::ext_equal]
pub struct ArmedModel<T> {
    pub next: usize,
    pub tokens: Map<usize, T>,
}

impl<T> View for Armed<T> {
    type V = ArmedModel<T>;

    closed spec fn view(&self) -> ArmedModel<T> {
        ArmedModel { next: self.next, tokens: self.tokens@ }
    }
}

impl<T> Armed<T> {
    /// Numbers are given out in order.
    #[verifier::type_invariant]
    spec fn wf(self) -> bool {
        self@.in_order()
    }

    /// No event is pending.
    pub fn new() -> (armed: Armed<T>)
        ensures
            armed@ == ArmedModel::<T>::fresh(),
    {
        Armed { next: 0, tokens: HashMap::new() }
    }

    /// Adds an event, and returns its number, which no other event ever had; there is none left once
    /// all numbers were given out.
    pub fn arm(&mut self, token: T) -> (id: Option<usize>)
        ensures
            id == (if old(self)@.next < usize::MAX {
                Some(old(self)@.next)
            } else {
                None
            }),
            !old(self)@.tokens.contains_key(old(self)@.next),
            final(self)@ == old(self)@.apply(ArmedStep::Arm(token)),
    {
        proof {
            use_type_invariant(&*self);
        }
        if self.next == usize::MAX {
            return None;
        }
        let id: usize = self.next;
        let mut tokens: HashMap<usize, T> = HashMap::new();
        core::mem::swap(&mut tokens, &mut self.tokens);
        tokens.insert(id, token);
        proof {
            assert forall|other: usize| #[trigger] tokens@.contains_key(other) implies other < id
                + 1 by {
                assert(other != id ==> old(self)@.tokens.contains_key(other));
            }
        }
        *self = Armed { next: id + 1, tokens };
        Some(id)
    }

    /// Takes an event out, with what it is for.
    pub fn disarm(&mut self, id: usize) -> (token: Option<T>)
        ensures
            token == (if old(self)@.tokens.contains_key(id) {
                Some(old(self)@.tokens[id])
            } else {
                None
            }),
            final(self)@ == old(self)@.apply(ArmedStep::Disarm(id)),
    {
        proof {
            use_type_invariant(&*self);
        }
        let next: usize = self.next;
        let mut tokens: HashMap<usize, T> = HashMap::new();
        core::mem::swap(&mut tokens, &mut self.tokens);
        let token: Option<T> = tokens.remove(&id);
        proof {
            assert forall|other: usize| #[trigger] tokens@.contains_key(other) implies other
                < next by {
                assert(old(self)@.tokens.contains_key(other));
            }
        }
        *self = Armed { next, tokens };
        token
    }

    /// What an event that is pending is for.
    pub fn get(&self, id: usize) -> (token: Option<&T>)
        ensures
            match token {
                Some(token) => self@.tokens.contains_key(id) && *token == self@.tokens[id],
                None => !self@.tokens.contains_key(id),
            },
    {
        self.tokens.get(&id)
    }
}

/// The steps that change an [`Armed`].
#[verifier::reject_recursive_types(T)]
pub enum ArmedStep<T> {
    Arm(T),
    Disarm(usize),
}

impl<T> ArmedModel<T> {
    /// No event is pending.
    pub open spec fn fresh() -> ArmedModel<T> {
        ArmedModel { next: 0, tokens: Map::empty() }
    }

    /// Whether only numbers that were given out are in use.
    pub open spec fn in_order(self) -> bool {
        forall|id: usize| #[trigger] self.tokens.contains_key(id) ==> id < self.next
    }

    /// The events after one step.
    pub open spec fn apply(self, step: ArmedStep<T>) -> ArmedModel<T> {
        match step {
            ArmedStep::Arm(token) => if self.next < usize::MAX {
                ArmedModel {
                    next: (self.next + 1) as usize,
                    tokens: self.tokens.insert(self.next, token),
                }
            } else {
                self
            },
            ArmedStep::Disarm(id) => ArmedModel { next: self.next, tokens: self.tokens.remove(id) },
        }
    }

    /// The events after a succession of steps, whoever makes them.
    pub open spec fn run(self, steps: Seq<ArmedStep<T>>) -> ArmedModel<T>
        decreases steps.len(),
    {
        if steps.len() == 0 {
            self
        } else {
            self.run(steps.drop_last()).apply(steps.last())
        }
    }
}

proof fn lemma_numbers_stay_in_order<T>(armed: ArmedModel<T>, steps: Seq<ArmedStep<T>>)
    requires
        armed.in_order(),
    ensures
        armed.run(steps).in_order(),
        armed.run(steps).next >= armed.next,
    decreases steps.len(),
{
    if steps.len() > 0 {
        lemma_numbers_stay_in_order(armed, steps.drop_last());
    }
}

/// A pending event keeps what it is for: whatever other events are added and taken out, by whomever,
/// and whoever else has let go of it, it is still there until the event itself is taken out.
pub proof fn law_pending_event_keeps_its_token<T>(
    armed: ArmedModel<T>,
    id: usize,
    steps: Seq<ArmedStep<T>>,
)
    requires
        armed.in_order(),
        armed.tokens.contains_key(id),
        forall|at: int|
            0 <= at < steps.len() ==> (#[trigger] steps[at]) != ArmedStep::<T>::Disarm(id),
    ensures
        armed.run(steps).tokens.contains_key(id),
        armed.run(steps).tokens[id] == armed.tokens[id],
    decreases steps.len(),
{
    if steps.len() > 0 {
        let fewer = steps.drop_last();
        assert forall|at: int| 0 <= at < fewer.len() implies (#[trigger] fewer[at]) != ArmedStep::<
            T,
        >::Disarm(id) by {
            assert(fewer[at] == steps[at]);
        }
        law_pending_event_keeps_its_token(armed, id, fewer);
        lemma_numbers_stay_in_order(armed, fewer);
        assert(steps.last() == steps[steps.len() - 1]);
    }
}

/// An event comes once: after it was taken out its number stands for nothing, whatever is added
/// later.
pub proof fn law_event_is_taken_out_once<T>(
    armed: ArmedModel<T>,
    id: usize,
    steps: Seq<ArmedStep<T>>,
)
    requires
        armed.in_order(),
        armed.tokens.contains_key(id),
    ensures
        !armed.apply(ArmedStep::Disarm(id)).run(steps).tokens.contains_key(id),
    decreases steps.len(),
{
    if steps.len() > 0 {
        law_event_is_taken_out_once(armed, id, steps.drop_last());
        lemma_numbers_stay_in_order(armed.apply(ArmedStep::Disarm(id)), steps.drop_last());
    }
}

/// Adding and taking out an event concern that event alone: the one makes its token available under
/// a number that none had, the other makes it unavailable, and every other event stays as it was.
pub proof fn law_events_are_kept_apart<T>(armed: ArmedModel<T>, token: T, id: usize, other: usize)
    requires
        armed.in_order(),
        armed.next < usize::MAX,
        other != id,
    ensures
        ({
            let added = armed.apply(ArmedStep::Arm(token));
            let removed = armed.apply(ArmedStep::Disarm(id));
            &&& !armed.tokens.contains_key(armed.next)
            &&& added.tokens.contains_key(armed.next)
            &&& added.tokens[armed.next] == token
            &&& armed.tokens.contains_key(id) ==> added.tokens.contains_key(id)
                && added.tokens[id] == armed.tokens[id]
            &&& added.tokens.contains_key(id) ==> armed.tokens.contains_key(id) || id == armed.next
            &&& !removed.tokens.contains_key(id)
            &&& removed.tokens.contains_key(other) <==> armed.tokens.contains_key(other)
            &&& armed.tokens.contains_key(other) ==> removed.tokens[other] == armed.tokens[other]
        }),
{
}

} // verus!
