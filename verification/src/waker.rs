//! The waker of a task that waits for something to be over, by its number.
use vstd::prelude::*;

verus! {

/// The waker that is registered, if one is. Each method is one step that no other step divides.
#[derive(PartialEq, Eq, Debug)]
pub struct WakerSlot {
    waker: Option<usize>,
}

impl View for WakerSlot {
    type V = Option<usize>;

    closed spec fn view(&self) -> Option<usize> {
        self.waker
    }
}

impl WakerSlot {
    /// A slot without a waker.
    pub fn new() -> (slot: WakerSlot)
        ensures
            slot@ is None,
    {
        WakerSlot { waker: None }
    }

    /// Registers a waker in place of the one that was registered before.
    pub fn register(&mut self, waker: usize)
        ensures
            final(self)@ == registered(old(self)@, WaitStep::Register(waker)),
    {
        self.waker = Some(waker);
    }

    /// Hands out the waker, which is to be woken; it is not registered any more.
    pub fn wake(&mut self) -> (waker: Option<usize>)
        ensures
            waker == old(self)@,
            final(self)@ == registered(old(self)@, WaitStep::Wake),
    {
        self.waker.take()
    }

    /// Forgets the waker.
    pub fn forget(&mut self)
        ensures
            final(self)@ == registered(old(self)@, WaitStep::Forget),
    {
        self.waker = None;
    }

    /// The waker that is registered.
    pub fn waker(&self) -> (waker: Option<usize>)
        ensures
            waker == self@,
    {
        self.waker
    }
}

/// The steps that change what is waited for, or the waker that waits for it.
pub enum WaitStep {
    /// A poll registers its waker.
    Register(usize),
    /// What is waited for is over.
    Finish,
    /// Whoever saw that it is over wakes the task.
    Wake,
    /// The waker is given up.
    Forget,
}

/// The waker that is registered after a step.
pub open spec fn registered(waker: Option<usize>, step: WaitStep) -> Option<usize> {
    match step {
        WaitStep::Register(new) => Some(new),
        WaitStep::Finish => waker,
        WaitStep::Wake => None,
        WaitStep::Forget => None,
    }
}

/// Whether what is waited for is over, and the waker that waits for it.
#[verifier::ext_equal]
pub struct Waiting {
    pub over: bool,
    pub waker: Option<usize>,
}

impl Waiting {
    /// The state after one step.
    pub open spec fn apply(self, step: WaitStep) -> Waiting {
        Waiting { over: self.over || step is Finish, waker: registered(self.waker, step) }
    }

    /// The state after a succession of steps, whoever makes them.
    pub open spec fn run(self, steps: Seq<WaitStep>) -> Waiting
        decreases steps.len(),
    {
        if steps.len() == 0 {
            self
        } else {
            self.run(steps.drop_last()).apply(steps.last())
        }
    }

    /// Whether nobody wakes the task before what it waits for is over.
    pub open spec fn orderly(self, steps: Seq<WaitStep>) -> bool
        decreases steps.len(),
    {
        steps.len() > 0 ==> {
            &&& self.orderly(steps.drop_last())
            &&& steps.last() is Wake ==> self.run(steps.drop_last()).over
        }
    }
}

/// Whether the task that waits neither registers another waker nor gives up.
pub open spec fn keeps_waiting(steps: Seq<WaitStep>) -> bool {
    forall|at: int|
        0 <= at < steps.len() ==> !((#[trigger] steps[at]) is Register) && !(steps[at] is Forget)
}

/// No wake-up is missed: where a poll registers its waker first and looks at the state after, as many
/// steps of others later as may be (`before`), and finds that what it waits for is not over, its waker
/// is the one that the wake-up which comes after (`after` holds the steps up to it) hands out.
pub proof fn law_wake_up_reaches_the_waker(
    start: Waiting,
    waker: usize,
    before: Seq<WaitStep>,
    after: Seq<WaitStep>,
)
    requires
        start.apply(WaitStep::Register(waker)).orderly(before),
        keeps_waiting(before),
        !start.apply(WaitStep::Register(waker)).run(before).over,
        keeps_waiting(after),
        forall|at: int| 0 <= at < after.len() ==> !((#[trigger] after[at]) is Wake),
    ensures
        start.apply(WaitStep::Register(waker)).run(before).run(after).waker == Some(waker),
    decreases before.len(), after.len(),
{
    let begun = start.apply(WaitStep::Register(waker));
    if after.len() > 0 {
        let fewer = after.drop_last();
        assert forall|at: int| 0 <= at < fewer.len() implies !((#[trigger] fewer[at]) is Register)
            && !(fewer[at] is Forget) && !(fewer[at] is Wake) by {
            assert(fewer[at] == after[at]);
        }
        law_wake_up_reaches_the_waker(start, waker, before, fewer);
        assert(after.last() == after[after.len() - 1]);
    } else if before.len() > 0 {
        let fewer = before.drop_last();
        assert forall|at: int| 0 <= at < fewer.len() implies !((#[trigger] fewer[at]) is Register)
            && !(fewer[at] is Forget) by {
            assert(fewer[at] == before[at]);
        }
        law_wake_up_reaches_the_waker(start, waker, fewer, after);
        assert(before.last() == before[before.len() - 1]);
        assert(begun.run(fewer).run(after) == begun.run(fewer));
    }
}

/// The waker that is registered is the latest, until it is handed out or given up, each of which
/// leaves none; that what is waited for is over changes nothing of it, and it stays over.
pub proof fn law_latest_waker_is_registered(state: Waiting, waker: usize)
    ensures
        state.apply(WaitStep::Register(waker)).waker == Some(waker),
        state.apply(WaitStep::Register(waker)).over == state.over,
        state.apply(WaitStep::Wake).waker is None,
        state.apply(WaitStep::Wake).over == state.over,
        state.apply(WaitStep::Forget).waker is None,
        state.apply(WaitStep::Forget).over == state.over,
        state.apply(WaitStep::Finish).waker == state.waker,
        state.apply(WaitStep::Finish).over,
{
}

} // verus!
