//! An executor that runs futures on the thread that waits for them.
use vstd::prelude::*;

#[allow(unused_imports)]
use crate::queue::state::successor;

verus! {

/// Counts how often a future of the executor was awakened. A pass over the futures is over once it
/// ends without this number having changed. Each method is one step that no other step divides.
pub struct AwakeCounter {
    count: usize,
}

impl View for AwakeCounter {
    type V = usize;

    closed spec fn view(&self) -> usize {
        self.count
    }
}

impl AwakeCounter {
    /// A counter at zero.
    pub fn new() -> (counter: AwakeCounter)
        ensures
            counter@ == 0,
    {
        AwakeCounter { count: 0 }
    }

    /// The current number.
    pub fn load(&self) -> (count: usize)
        ensures
            count == self@,
    {
        self.count
    }

    /// Counts one wake-up.
    pub fn wake(&mut self)
        ensures
            final(self)@ == successor(old(self)@),
    {
        self.count = self.count.wrapping_add(1);
    }

    /// Sets the number to zero where it is still `expected`; otherwise tells what it is.
    pub fn try_reset(&mut self, expected: usize) -> (result: Result<(), usize>)
        ensures
            result == reset_answer(old(self)@, expected),
            final(self)@ == (if old(self)@ == expected {
                0
            } else {
                old(self)@
            }),
    {
        if self.count == expected {
            self.count = 0;
            Ok(())
        } else {
            Err(self.count)
        }
    }
}

/// Whether a wake-up of the executor `id` has to interrupt its event queue: not where it comes from
/// the executor itself, which looks at the counter before it waits. `current` is the executor
/// that runs on this thread.
pub fn needs_queue_event(current: Option<usize>, id: usize) -> (needs: bool)
    ensures
        needs == (current != Some(id)),
{
    match current {
        Some(current_id) => current_id != id,
        None => true,
    }
}

/// A step of a wake-up.
#[derive(Clone, Copy, PartialEq, Eq, Debug, Structural)]
pub enum WakeStep {
    /// Count the wake-up.
    Count,
    /// Raise the event that interrupts the event queue.
    Raise,
    Over,
}

impl WakeStep {
    /// The step that follows: the wake-up is counted before the event queue is interrupted, so that
    /// an executor that goes on finds it counted.
    pub open spec fn after(self, current: Option<usize>, id: usize) -> WakeStep {
        match self {
            WakeStep::Count => if current != Some(id) {
                WakeStep::Raise
            } else {
                WakeStep::Over
            },
            _ => WakeStep::Over,
        }
    }

    /// The step that follows in a wake-up of the executor `id`. `current` is the executor that runs
    /// on this thread.
    pub fn next(self, current: Option<usize>, id: usize) -> (step: WakeStep)
        ensures
            step == self.after(current, id),
    {
        match self {
            WakeStep::Count => if needs_queue_event(current, id) {
                WakeStep::Raise
            } else {
                WakeStep::Over
            },
            _ => WakeStep::Over,
        }
    }
}

/// What the executor has to do next.
#[derive(Clone, Copy, PartialEq, Eq, Debug, Structural)]
pub enum BlockStep {
    /// Poll the future that is waited for.
    PollMain,
    /// Poll the spawned futures.
    PollSpawned,
    /// Reset the counter where it still holds this number.
    Reset(usize),
    /// Turn the event queue, with no span given for its wait and no number of events. How long it
    /// waits then is up to the queue: until an event comes, but over `epoll` not at all.
    Turn,
    /// Read the counter.
    Reload,
    /// The future that is waited for is ready.
    Return,
}

/// What polling the spawned futures comes to.
#[derive(Clone, Copy, PartialEq, Eq, Debug, Structural)]
pub enum SpawnedPoll {
    /// One of them finished.
    Finished,
    /// None is left.
    Empty,
    /// All that are left wait to be awakened.
    Pending,
}

/// The steps of waiting for a future.
#[derive(Debug)]
pub struct BlockOn {
    init_seq: usize,
    step: BlockStep,
}

/// The step after the future that is waited for was polled.
pub open spec fn after_main(ready: bool) -> BlockStep {
    if ready {
        BlockStep::Return
    } else {
        BlockStep::PollSpawned
    }
}

/// The step after the spawned futures were polled in a pass that began with `init_seq`.
pub open spec fn after_spawned(init_seq: usize, poll: SpawnedPoll) -> BlockStep {
    match poll {
        SpawnedPoll::Finished => BlockStep::PollSpawned,
        _ => BlockStep::Reset(init_seq),
    }
}

/// The step after the counter was tried to be reset.
pub open spec fn after_reset(answer: Result<(), usize>) -> BlockStep {
    match answer {
        Ok(_) => BlockStep::Turn,
        Err(count) => BlockStep::PollMain,
    }
}

/// The step after the counter was read.
pub open spec fn after_reload(count: usize) -> BlockStep {
    if count == 0 {
        BlockStep::Turn
    } else {
        BlockStep::PollMain
    }
}

/// What an attempt to reset a counter from a number gives.
pub open spec fn reset_answer(count: usize, expected: usize) -> Result<(), usize> {
    if count == expected {
        Ok(())
    } else {
        Err(count)
    }
}

impl BlockOn {
    /// What is to be done next.
    pub closed spec fn step(self) -> BlockStep {
        self.step
    }

    /// The number that the counter held when the pass began.
    pub closed spec fn init_seq(self) -> usize {
        self.init_seq
    }

    /// A reset is for the number that the pass began with.
    #[verifier::type_invariant]
    spec fn wf(self) -> bool {
        self.step matches BlockStep::Reset(expected) ==> expected == self.init_seq
    }

    /// Begins to wait, with the number that the counter holds.
    pub fn new(init_seq: usize) -> (block: BlockOn)
        ensures
            block.init_seq() == init_seq,
            block.step() == BlockStep::PollMain,
    {
        BlockOn { init_seq, step: BlockStep::PollMain }
    }

    /// What is to be done next.
    pub fn next_step(&self) -> (step: BlockStep)
        ensures
            step == self.step(),
            step matches BlockStep::Reset(expected) ==> expected == self.init_seq(),
    {
        proof {
            use_type_invariant(self);
        }
        self.step
    }

    /// The future that is waited for was polled.
    pub fn main_polled(&mut self, ready: bool)
        requires
            old(self).step() == BlockStep::PollMain,
        ensures
            final(self).init_seq() == old(self).init_seq(),
            final(self).step() == after_main(ready),
    {
        if ready {
            self.step = BlockStep::Return;
        } else {
            self.step = BlockStep::PollSpawned;
        }
    }

    /// The spawned futures were polled: they are polled again as long as one finishes.
    pub fn spawned_polled(&mut self, poll: SpawnedPoll)
        requires
            old(self).step() == BlockStep::PollSpawned,
        ensures
            final(self).init_seq() == old(self).init_seq(),
            final(self).step() == after_spawned(old(self).init_seq(), poll),
    {
        match poll {
            SpawnedPoll::Finished => {},
            SpawnedPoll::Empty => {
                self.step = BlockStep::Reset(self.init_seq);
            },
            SpawnedPoll::Pending => {
                self.step = BlockStep::Reset(self.init_seq);
            },
        }
    }

    /// The counter was reset, or holds another number: then the pass is repeated from that number.
    pub fn reset_tried(&mut self, answer: Result<(), usize>)
        requires
            old(self).step() is Reset,
        ensures
            final(self).step() == after_reset(answer),
            final(self).init_seq() == (match answer {
                Ok(_) => old(self).init_seq(),
                Err(count) => count,
            }),
    {
        match answer {
            Ok(_) => {
                self.step = BlockStep::Turn;
            },
            Err(count) => {
                self.step = BlockStep::PollMain;
                self.init_seq = count;
            },
        }
    }

    /// The event queue was turned.
    pub fn turned(&mut self)
        requires
            old(self).step() == BlockStep::Turn,
        ensures
            final(self).init_seq() == old(self).init_seq(),
            final(self).step() == BlockStep::Reload,
    {
        self.step = BlockStep::Reload;
    }

    /// The counter was read after the turn: where nothing was awakened the queue is turned again,
    /// otherwise a pass begins.
    pub fn reloaded(&mut self, count: usize)
        requires
            old(self).step() == BlockStep::Reload,
        ensures
            final(self).init_seq() == count,
            final(self).step() == after_reload(count),
    {
        self.init_seq = count;
        if count == 0 {
            self.step = BlockStep::Turn;
        } else {
            self.step = BlockStep::PollMain;
        }
    }
}

/// The counter after a number of wake-ups.
pub open spec fn woken(count: usize, wakes: nat) -> usize
    decreases wakes,
{
    if wakes == 0 {
        count
    } else {
        successor(woken(count, (wakes - 1) as nat))
    }
}

proof fn lemma_woken(count: usize, wakes: nat)
    ensures
        woken(count, wakes) == (count + wakes) % (usize::MAX + 1),
    decreases wakes,
{
    let size = usize::MAX + 1;
    if wakes == 0 {
        assert((count as int) % size == count) by (nonlinear_arith)
            requires
                0 <= count < size,
        ;
    } else {
        lemma_woken(count, (wakes - 1) as nat);
        let earlier = count + wakes - 1;
        assert((earlier + 1) % size == (if earlier % size == size - 1 {
            0
        } else {
            earlier % size + 1
        })) by (nonlinear_arith)
            requires
                size > 1,
                earlier >= 0,
        ;
    }
}

/// No wake-up is lost: where a future was awakened since the counter was read, up to once less than
/// there are numbers, the counter holds another number than the one read. So a pass in which a
/// future was awakened is repeated, and the executor does not go on waiting once one was awakened
/// after the reset.
pub proof fn law_wake_up_is_noticed(count: usize, wakes: nat)
    requires
        0 < wakes <= usize::MAX,
    ensures
        woken(count, wakes) != count,
{
    lemma_woken(count, wakes);
    let size = usize::MAX + 1;
    if count + wakes < size {
        assert((count + wakes) % size == count + wakes) by (nonlinear_arith)
            requires
                0 <= count + wakes < size,
        ;
    } else {
        assert((count + wakes) % size == count + wakes - size) by (nonlinear_arith)
            requires
                size <= count + wakes < 2 * size,
        ;
    }
}

/// An executor that waits for a future, as it runs beside whatever wakes its futures: where it is,
/// the counter, how often the future was polled and how often one of the futures was awakened since
/// the executor began to wait, and how often until it last read or reset the counter. `dispatching`
/// says that the wait of a turn is over, and that the executor runs what the events ask for; `raised`
/// that the event which ends the wait is due, and `raising` is the number of wake-ups that were
/// counted and have yet to raise it.
pub struct Run {
    pub id: usize,
    pub init_seq: usize,
    pub step: BlockStep,
    pub counter: usize,
    pub polls: nat,
    pub wakes: nat,
    pub noticed: nat,
    pub dispatching: bool,
    pub raised: bool,
    pub raising: nat,
}

/// A step of a [`Run`].
pub enum RunStep {
    /// One of the futures is awakened, which is counted; `current` is the executor that runs on the
    /// thread where this happens.
    Count { current: Option<usize> },
    /// A wake-up that was counted raises the event of the queue.
    Raise,
    /// The future that is waited for is polled.
    PollMain { ready: bool },
    /// The spawned futures are polled.
    PollSpawned { poll: SpawnedPoll },
    /// The counter is reset where it still holds the number that the pass began with.
    TryReset,
    /// The wait of a turn is over, because of whatever event; the turn takes in the event that
    /// wake-ups raise, or leaves it for the next turn.
    EndWait { takes_raised: bool },
    /// The event queue was turned.
    Turn,
    /// The counter is read.
    Reload,
}

impl Run {
    /// The executor `id` begins to wait, with whatever the counter holds and whatever wake-ups from
    /// before have yet to do.
    pub open spec fn begin(id: usize, counter: usize, raised: bool, raising: nat) -> Run {
        Run {
            id,
            init_seq: counter,
            step: BlockStep::PollMain,
            counter,
            polls: 0,
            wakes: 0,
            noticed: 0,
            dispatching: false,
            raised,
            raising,
        }
    }

    /// Whether the executor runs code of futures or of handlers.
    pub open spec fn runs_code(self) -> bool {
        self.step == BlockStep::PollMain || self.step == BlockStep::PollSpawned || self.dispatching
    }

    /// Whether a step is the next one of the executor, or one of a wake-up. A wake-up can come at any
    /// time from elsewhere, but from the executor itself only while it runs code.
    pub open spec fn allows(self, step: RunStep) -> bool {
        match step {
            RunStep::Count { current } => current == Some(self.id) ==> self.runs_code(),
            RunStep::Raise => self.raising > 0,
            RunStep::PollMain { ready } => self.step == BlockStep::PollMain,
            RunStep::PollSpawned { poll } => self.step == BlockStep::PollSpawned,
            RunStep::TryReset => self.step is Reset,
            RunStep::EndWait { takes_raised } => self.step == BlockStep::Turn && !self.dispatching,
            RunStep::Turn => self.step == BlockStep::Turn && self.dispatching,
            RunStep::Reload => self.step == BlockStep::Reload,
        }
    }

    /// The executor after one step.
    pub open spec fn apply(self, step: RunStep) -> Run {
        match step {
            RunStep::Count { current } => Run {
                counter: successor(self.counter),
                wakes: self.wakes + 1,
                raising: if WakeStep::Count.after(current, self.id) is Raise {
                    self.raising + 1
                } else {
                    self.raising
                },
                ..self
            },
            RunStep::Raise => Run {
                raised: true,
                raising: (self.raising - 1) as nat,
                ..self
            },
            RunStep::PollMain { ready } => Run {
                step: after_main(ready),
                polls: self.polls + 1,
                ..self
            },
            RunStep::PollSpawned { poll } => Run {
                step: after_spawned(self.init_seq, poll),
                ..self
            },
            RunStep::TryReset => {
                let answer = reset_answer(self.counter, self.init_seq);
                Run {
                    step: after_reset(answer),
                    counter: if answer is Ok {
                        0
                    } else {
                        self.counter
                    },
                    init_seq: match answer {
                        Ok(_) => self.init_seq,
                        Err(count) => count,
                    },
                    noticed: self.wakes,
                    ..self
                }
            },
            RunStep::EndWait { takes_raised } => Run {
                dispatching: true,
                raised: self.raised && !takes_raised,
                ..self
            },
            RunStep::Turn => Run { step: BlockStep::Reload, dispatching: false, ..self },
            RunStep::Reload => Run {
                step: after_reload(self.counter),
                init_seq: self.counter,
                noticed: if self.counter == 0 {
                    self.noticed
                } else {
                    self.wakes
                },
                ..self
            },
        }
    }

    /// The executor after a succession of steps.
    pub open spec fn run(self, steps: Seq<RunStep>) -> Run
        decreases steps.len(),
    {
        if steps.len() == 0 {
            self
        } else {
            self.run(steps.drop_last()).apply(steps.last())
        }
    }

    /// Whether each of a succession of steps was the next one of the executor, or one of a wake-up.
    pub open spec fn allows_all(self, steps: Seq<RunStep>) -> bool
        decreases steps.len(),
    {
        steps.len() > 0 ==> {
            &&& self.allows_all(steps.drop_last())
            &&& self.run(steps.drop_last()).allows(steps.last())
        }
    }

    /// The number that the counter held when it was last read or reset.
    spec fn base(self) -> usize {
        if self.step == BlockStep::Turn || self.step == BlockStep::Reload {
            0
        } else {
            self.init_seq
        }
    }

    spec fn consistent(self) -> bool {
        &&& self.noticed <= self.wakes
        &&& self.counter == woken(self.base(), (self.wakes - self.noticed) as nat)
        &&& self.polls <= (if self.step == BlockStep::PollMain {
            self.noticed
        } else {
            1 + self.noticed
        })
        &&& self.dispatching ==> self.step == BlockStep::Turn
        &&& self.step == BlockStep::Turn && !self.dispatching && 0 < self.wakes - self.noticed
            <= usize::MAX ==> self.raised || self.raising > 0
    }

    /// Whether this is where an executor can be, some steps after it began to wait.
    pub open spec fn reached(self, start: Run, steps: Seq<RunStep>) -> bool {
        &&& start == Run::begin(start.id, start.counter, start.raised, start.raising)
        &&& start.allows_all(steps)
        &&& self == start.run(steps)
    }
}

proof fn lemma_run_is_consistent(run: Run, start: Run, steps: Seq<RunStep>)
    requires
        run.reached(start, steps),
    ensures
        run.consistent(),
    decreases steps.len(),
{
    if steps.len() > 0 {
        let before = start.run(steps.drop_last());
        lemma_run_is_consistent(before, start, steps.drop_last());
        if steps.last() is Reload && 0 < before.wakes - before.noticed <= usize::MAX {
            law_wake_up_is_noticed(0, (before.wakes - before.noticed) as nat);
        }
    }
}

/// A future is not polled without cause: since the executor began to wait, the future that it waits
/// for was polled at most once more often than one of the executor's futures was awakened.
pub proof fn law_polls_need_wake_ups(run: Run, start: Run, steps: Seq<RunStep>)
    requires
        run.reached(start, steps),
    ensures
        run.polls <= 1 + run.wakes,
{
    lemma_run_is_consistent(run, start, steps);
}

/// A wake-up from elsewhere ends the wait: where a turn waits, or is about to, and a future was
/// awakened since the counter was last read or reset, up to once less than there are numbers, the
/// event that ends the wait is due, or a wake-up that was counted has yet to raise it. Once the wait
/// has ended the executor polls again.
pub proof fn law_wake_up_ends_the_wait(run: Run, start: Run, steps: Seq<RunStep>)
    requires
        run.reached(start, steps),
        run.step == BlockStep::Turn,
        !run.dispatching,
        0 < run.wakes - run.noticed <= usize::MAX,
    ensures
        run.raised || run.raising > 0,
        run.apply((RunStep::EndWait { takes_raised: run.raised })).apply(RunStep::Turn).apply(
            RunStep::Reload,
        ).step == BlockStep::PollMain,
{
    lemma_run_is_consistent(run, start, steps);
    law_wake_up_is_noticed(0, (run.wakes - run.noticed) as nat);
}

/// A wake-up makes the executor poll again: where one came since the counter was last read or reset,
/// up to once less than there are numbers, a pass that ends is followed by another, and the executor
/// does not turn the event queue again once it has read the counter.
pub proof fn law_wake_up_repeats_the_pass(run: Run, start: Run, steps: Seq<RunStep>)
    requires
        run.reached(start, steps),
        0 < run.wakes - run.noticed <= usize::MAX,
    ensures
        run.step is Reset ==> run.apply(RunStep::TryReset).step == BlockStep::PollMain,
        run.step == BlockStep::Reload ==> run.apply(RunStep::Reload).step == BlockStep::PollMain,
{
    lemma_run_is_consistent(run, start, steps);
    law_wake_up_is_noticed(run.base(), (run.wakes - run.noticed) as nat);
}

/// A future that is ready is not polled again: once it was, no step is left but wake-ups.
pub proof fn law_ready_future_is_left_alone(before: Run, steps: Seq<RunStep>)
    requires
        before.step == BlockStep::Return,
        before.allows_all(steps),
    ensures
        before.run(steps).step == BlockStep::Return,
        before.run(steps).polls == before.polls,
    decreases steps.len(),
{
    if steps.len() > 0 {
        law_ready_future_is_left_alone(before, steps.drop_last());
    }
}

/// A pass lasts until the spawned futures are done with: whatever number it began with, they are
/// polled again as long as one of them finishes, and the executor tries to reset the counter only
/// once none is left or all that are left wait, with the number that the pass began with.
pub proof fn law_pass_ends_with_the_spawned_futures(run: Run, step: RunStep)
    requires
        run.allows(step),
    ensures
        step == (RunStep::PollSpawned { poll: SpawnedPoll::Finished }) ==> run.apply(step).step
            == BlockStep::PollSpawned,
        step is PollSpawned && step != (RunStep::PollSpawned { poll: SpawnedPoll::Finished })
            ==> run.apply(step).step == BlockStep::Reset(run.init_seq),
        !(run.step is Reset) && run.apply(step).step is Reset ==> step is PollSpawned && step != (
        RunStep::PollSpawned { poll: SpawnedPoll::Finished }),
        step is PollSpawned ==> run.apply(step).init_seq == run.init_seq && run.apply(step).counter
            == run.counter,
{
}

/// The executor returns as soon as the future that it waits for is ready, and never before; where it
/// is not ready the spawned futures are polled.
pub proof fn law_executor_returns_with_the_ready_future(run: Run, step: RunStep)
    requires
        run.allows(step),
    ensures
        step == (RunStep::PollMain { ready: true }) ==> run.apply(step).step == BlockStep::Return,
        step == (RunStep::PollMain { ready: false }) ==> run.apply(step).step
            == BlockStep::PollSpawned,
        run.step != BlockStep::Return && run.apply(step).step == BlockStep::Return ==> step == (
        RunStep::PollMain { ready: true }),
{
}

/// The executor goes to wait only where nothing was awakened: it turns the event queue after a reset
/// that found the number that the pass began with, which leaves the counter at zero, or after it read
/// zero. Wherever it found another number it begins a pass with that number, which it leaves in the
/// counter.
pub proof fn law_executor_waits_only_without_wake_ups(run: Run, step: RunStep)
    requires
        run.allows(step),
    ensures
        step is TryReset && run.counter == run.init_seq ==> run.apply(step).step == BlockStep::Turn
            && run.apply(step).counter == 0,
        step is TryReset && run.counter != run.init_seq ==> run.apply(step).step
            == BlockStep::PollMain && run.apply(step).init_seq == run.counter && run.apply(
            step,
        ).counter == run.counter,
        step is Reload && run.counter == 0 ==> run.apply(step).step == BlockStep::Turn,
        step is Reload && run.counter != 0 ==> run.apply(step).step == BlockStep::PollMain
            && run.apply(step).init_seq == run.counter,
        step is Reload ==> run.apply(step).counter == run.counter,
        run.step != BlockStep::Turn && run.apply(step).step == BlockStep::Turn ==> step is TryReset
            || step is Reload,
        run.step != BlockStep::PollMain && run.apply(step).step == BlockStep::PollMain ==> step
            is TryReset || step is Reload,
{
}

/// A wake-up is counted, and then interrupts the event queue where it comes from elsewhere than the
/// executor itself; that is all.
pub proof fn law_wake_up_takes_its_steps(current: Option<usize>, id: usize)
    ensures
        WakeStep::Count.after(current, id) == WakeStep::Raise <==> current is None || current->0
            != id,
        WakeStep::Count.after(current, id) == WakeStep::Over <==> current is Some && current->0 == id,
        WakeStep::Raise.after(current, id) == WakeStep::Over,
        WakeStep::Over.after(current, id) == WakeStep::Over,
{
}

/// Trying to reset the counter tells what it held: it succeeds for the number that it holds, and for
/// no other, of which the answer then tells.
pub proof fn law_reset_needs_the_number(count: usize, expected: usize)
    ensures
        reset_answer(count, expected) is Ok <==> count == expected,
        reset_answer(count, expected) is Err ==> reset_answer(count, expected)->Err_0 == count,
{
}

} // verus!
