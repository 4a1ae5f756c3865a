use async_runtime::sched::{Executor, QueueFull, TaskStatus};
use async_runtime::timer::Timer;

#[test]
fn spawn_assigns_dense_ids_fifo() {
    let mut exec = Executor::new(8);
    assert_eq!(exec.spawn(), Ok(0));
    assert_eq!(exec.spawn(), Ok(1));
    assert_eq!(exec.spawn(), Ok(2));
    assert_eq!(exec.take_next(), Some(0));
    assert_eq!(exec.take_next(), Some(1));
    assert_eq!(exec.take_next(), Some(2));
    assert_eq!(exec.take_next(), None);
}

#[test]
fn spawn_past_capacity_is_fatal() {
    let mut exec = Executor::new(2);
    assert_eq!(exec.spawn(), Ok(0));
    assert_eq!(exec.spawn(), Ok(1));
    assert_eq!(exec.spawn(), Err(QueueFull));
}

#[test]
fn pending_task_is_requeued_only_by_wake() {
    let mut exec = Executor::new(4);
    let id = exec.spawn().unwrap();
    assert_eq!(exec.take_next(), Some(id));
    exec.report(id, false);
    // Not re-enqueued by the poll itself.
    assert_eq!(exec.take_next(), None);
    assert_eq!(exec.statuses[id], TaskStatus::Idle);
    assert_eq!(exec.wake(id), Ok(true));
    assert_eq!(exec.take_next(), Some(id));
}

#[test]
fn duplicate_and_late_wakes_are_noops() {
    let mut exec = Executor::new(4);
    let id = exec.spawn().unwrap();
    // Wake while still queued: no-op, no duplicate entry.
    assert_eq!(exec.wake(id), Ok(false));
    assert_eq!(exec.queue.len(), 1);
    assert_eq!(exec.take_next(), Some(id));
    // Wake while running: no-op.
    assert_eq!(exec.wake(id), Ok(false));
    exec.report(id, true);
    // Wake after completion: no-op.
    assert_eq!(exec.wake(id), Ok(false));
    assert_eq!(exec.take_next(), None);
    assert_eq!(exec.statuses[id], TaskStatus::Done);
}

#[test]
fn wake_into_full_queue_is_fatal() {
    let mut exec = Executor::new(1);
    let first = exec.spawn().unwrap();
    assert_eq!(exec.take_next(), Some(first));
    exec.report(first, false);
    let _second = exec.spawn().unwrap();
    // The queue is at capacity again: re-enqueueing the parked task fails.
    assert_eq!(exec.wake(first), Err(QueueFull));
}

#[test]
fn completed_task_is_discarded() {
    let mut exec = Executor::new(4);
    let id = exec.spawn().unwrap();
    assert_eq!(exec.take_next(), Some(id));
    exec.report(id, true);
    assert_eq!(exec.statuses[id], TaskStatus::Done);
    assert_eq!(exec.take_next(), None);
}

#[test]
fn timer_polls_none_until_fired() {
    let mut timer = Timer::new(100, 250);
    assert_eq!(timer.poll(), None);
    timer.fire(350);
    assert_eq!(timer.poll(), Some(350));
}

#[test]
fn fired_timer_observed_at_least_its_duration() {
    let mut timer = Timer::new(0, 500);
    timer.fire(730);
    let fired_at = timer.poll().unwrap();
    assert!(fired_at - timer.started_at_ms >= timer.duration_ms);
}

/// Spawning several tasks that wait on disjoint timers completes all of
/// them, whatever the spawn order, each observing at least its requested
/// duration elapse.
#[test]
fn disjoint_timers_complete_all_tasks() {
    let durations: [u64; 3] = [300, 100, 200];
    let mut exec = Executor::new(16);
    let mut timers: Vec<Timer> = Vec::new();
    let mut ids: Vec<usize> = Vec::new();
    for d in durations {
        let id = exec.spawn().unwrap();
        ids.push(id);
        timers.push(Timer::new(0, d));
    }
    // First pass: every task polls its timer, finds it unfired, suspends.
    while let Some(id) = exec.take_next() {
        assert_eq!(timers[id].poll(), None);
        exec.report(id, false);
    }
    // The background threads fire, in an order unrelated to spawn order,
    // and wake the owning tasks.
    for &id in [1usize, 2, 0].iter() {
        let fire_at = timers[id].started_at_ms + timers[id].duration_ms + 7;
        timers[id].fire(fire_at);
        assert_eq!(exec.wake(ids[id]), Ok(true));
    }
    // Second pass: each woken task finds its fire instant and completes.
    let mut completed = 0;
    while let Some(id) = exec.take_next() {
        let fired_at = timers[id].poll().expect("woken task must find its timer fired");
        assert!(fired_at - timers[id].started_at_ms >= timers[id].duration_ms);
        exec.report(id, true);
        completed += 1;
    }
    assert_eq!(completed, durations.len());
    for &id in &ids {
        assert_eq!(exec.statuses[id], TaskStatus::Done);
    }
}
