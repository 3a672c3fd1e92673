use compio::local::{needs_queue_event, AwakeCounter, BlockOn, BlockStep, SpawnedPoll, WakeStep};

#[test]
fn a_ready_future_returns_at_once() {
    let counter = AwakeCounter::new();
    let mut block = BlockOn::new(counter.load());
    assert_eq!(block.next_step(), BlockStep::PollMain);
    block.main_polled(true);
    assert_eq!(block.next_step(), BlockStep::Return);
}

#[test]
fn a_pass_is_repeated_where_a_future_was_awakened() {
    let mut counter = AwakeCounter::new();
    let mut block = BlockOn::new(counter.load());
    block.main_polled(false);
    assert_eq!(block.next_step(), BlockStep::PollSpawned);
    block.spawned_polled(SpawnedPoll::Finished);
    assert_eq!(block.next_step(), BlockStep::PollSpawned);
    counter.wake();
    block.spawned_polled(SpawnedPoll::Pending);
    assert_eq!(block.next_step(), BlockStep::Reset(0));
    let answer = counter.try_reset(0);
    assert_eq!(answer, Err(1));
    block.reset_tried(answer);
    assert_eq!(block.next_step(), BlockStep::PollMain);
    block.main_polled(false);
    block.spawned_polled(SpawnedPoll::Empty);
    assert_eq!(block.next_step(), BlockStep::Reset(1));
    let answer = counter.try_reset(1);
    assert_eq!(answer, Ok(()));
    block.reset_tried(answer);
    assert_eq!(block.next_step(), BlockStep::Turn);
    assert_eq!(counter.load(), 0);
}

#[test]
fn the_queue_is_turned_until_a_future_is_awakened() {
    let mut counter = AwakeCounter::new();
    let mut block = BlockOn::new(counter.load());
    block.main_polled(false);
    block.spawned_polled(SpawnedPoll::Empty);
    block.reset_tried(counter.try_reset(0));
    block.turned();
    assert_eq!(block.next_step(), BlockStep::Reload);
    block.reloaded(counter.load());
    assert_eq!(block.next_step(), BlockStep::Turn);
    counter.wake();
    block.turned();
    block.reloaded(counter.load());
    assert_eq!(block.next_step(), BlockStep::PollMain);
    block.main_polled(true);
    assert_eq!(block.next_step(), BlockStep::Return);
}

#[test]
fn wake_ups_are_counted() {
    let mut counter = AwakeCounter::new();
    for count in 1..4 {
        counter.wake();
        assert_eq!(counter.load(), count);
        assert_eq!(counter.try_reset(0), Err(count));
    }
}

#[test]
fn only_wake_ups_from_elsewhere_interrupt_the_queue() {
    assert!(needs_queue_event(None, 5));
    assert!(needs_queue_event(Some(4), 5));
    assert!(!needs_queue_event(Some(5), 5));
    for elsewhere in [None, Some(4)] {
        let step = WakeStep::Count.next(elsewhere, 5);
        assert_eq!(step, WakeStep::Raise);
        assert_eq!(step.next(elsewhere, 5), WakeStep::Over);
    }
    assert_eq!(WakeStep::Count.next(Some(5), 5), WakeStep::Over);
}

#[test]
fn a_future_is_polled_at_most_once_more_than_it_is_awakened() {
    // How often futures are awakened in each pass.
    for passes in [&[0usize][..], &[1, 0], &[3, 1, 0], &[0, 2, 0]] {
        let mut counter = AwakeCounter::new();
        let mut block = BlockOn::new(counter.load());
        let (mut polls, mut wakes, mut turns) = (0, 0, 0);
        loop {
            match block.next_step() {
                BlockStep::PollMain => {
                    for _ in 0..passes[polls] {
                        counter.wake();
                        wakes += 1;
                    }
                    polls += 1;
                    block.main_polled(polls == passes.len());
                }
                BlockStep::PollSpawned => block.spawned_polled(SpawnedPoll::Empty),
                BlockStep::Reset(expected) => block.reset_tried(counter.try_reset(expected)),
                BlockStep::Turn => {
                    turns += 1;
                    if turns % 2 == 0 {
                        counter.wake();
                        wakes += 1;
                    }
                    block.turned();
                }
                BlockStep::Reload => block.reloaded(counter.load()),
                BlockStep::Return => break,
            }
            assert!(polls <= 1 + wakes);
        }
        assert_eq!(polls, passes.len());
    }
}

#[test]
fn a_wake_up_from_elsewhere_ends_the_wait() {
    let mut counter = AwakeCounter::new();
    let mut block = BlockOn::new(counter.load());
    block.main_polled(false);
    block.spawned_polled(SpawnedPoll::Empty);
    block.reset_tried(counter.try_reset(0));
    assert_eq!(block.next_step(), BlockStep::Turn);
    // Another thread wakes a future while the turn waits.
    let (mut step, mut raised) = (WakeStep::Count, false);
    while step != WakeStep::Over {
        match step {
            WakeStep::Count => counter.wake(),
            _ => {
                assert_eq!(counter.load(), 1);
                raised = true;
            }
        }
        step = step.next(None, 5);
    }
    assert!(raised);
    block.turned();
    block.reloaded(counter.load());
    assert_eq!(block.next_step(), BlockStep::PollMain);
}
