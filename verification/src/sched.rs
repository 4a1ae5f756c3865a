//! The task scheduler: a bounded FIFO run queue and the decisions of the
//! execution thread.
//!
//! Spawning enqueues a task and returns immediately. The execution thread
//! takes the oldest queued task and polls it to completion or suspension:
//! a completed task is discarded, a pending one parks in its slot and is
//! re-enqueued only through the wake mechanism. Wakes may arrive from any
//! thread; duplicate or late wakes are harmless no-ops. The queue bound is
//! a configuration limit: exceeding it is fatal, not backpressure.

use vstd::prelude::*;
use vstd::pervasive::VecAdditionalExecFns;

verus! {

/// Where a task currently is.
#[derive(Clone, Copy, Debug, PartialEq, Eq, Structural)]
pub enum TaskStatus {
    /// In the run queue, waiting to be polled.
    Queued,
    /// Taken off the queue by the execution thread, being polled.
    Running,
    /// Polled to pending: parked in its slot until a wake re-enqueues it.
    Idle,
    /// Completed and discarded.
    Done,
}

/// The run queue is bounded; enqueueing past its capacity is a fatal
/// configuration error.
#[derive(Clone, Copy, Debug, PartialEq, Eq, Structural)]
pub struct QueueFull;

/// The scheduler state: one bounded FIFO queue of task ids plus the status
/// of every task ever spawned. Ids are dense, in spawn order.
pub struct Executor {
    pub capacity: usize,
    pub queue: Vec<usize>,
    pub statuses: Vec<TaskStatus>,
}

impl Executor {
    /// Well-formed scheduler: the queue respects its bound, holds each
    /// task at most once, and holds exactly the tasks that are `Queued`.
    pub open spec fn wf(&self) -> bool {
        &&& self.queue@.len() <= self.capacity
        &&& forall|i: int|
            0 <= i < self.queue@.len() ==> (self.queue@[i] as int) < self.statuses@.len()
        &&& forall|i: int|
            0 <= i < self.queue@.len() ==> self.statuses@[self.queue@[i] as int]
                == TaskStatus::Queued
        &&& forall|i: int, j: int|
            0 <= i < j < self.queue@.len() ==> self.queue@[i] != self.queue@[j]
        &&& forall|t: usize|
            t < self.statuses@.len() && self.statuses@[t as int] == TaskStatus::Queued
                ==> self.queue@.contains(t)
    }

    /// A scheduler with an empty queue and no tasks yet.
    pub fn new(capacity: usize) -> (e: Executor)
        ensures
            e.wf(),
            e.capacity == capacity,
            e.queue@.len() == 0,
            e.statuses@.len() == 0,
    {
        Executor { capacity, queue: Vec::new(), statuses: Vec::new() }
    }

    /// Enqueue a new task and return its id at once; fatal exactly when
    /// the queue is already at capacity.
    pub fn spawn(&mut self) -> (r: Result<usize, QueueFull>)
        requires
            old(self).wf(),
        ensures
            final(self).wf(),
            final(self).capacity == old(self).capacity,
            r is Err <==> old(self).queue@.len() == old(self).capacity,
            r matches Ok(id) ==> {
                &&& id == old(self).statuses@.len()
                &&& final(self).statuses@ == old(self).statuses@.push(TaskStatus::Queued)
                &&& final(self).queue@ == old(self).queue@.push(id)
            },
            r is Err ==> *final(self) == *old(self),
    {
        if self.queue.len() == self.capacity {
            return Err(QueueFull);
        }
        let id = self.statuses.len();
        self.statuses.push(TaskStatus::Queued);
        self.queue.push(id);
        proof {
            assert forall|t: usize|
                t < self.statuses@.len() && self.statuses@[t as int]
                    == TaskStatus::Queued implies self.queue@.contains(t) by {
                if (t as int) < old(self).statuses@.len() {
                    let k = choose|k: int|
                        0 <= k < old(self).queue@.len() && old(self).queue@[k] == t;
                    assert(self.queue@[k] == t);
                } else {
                    assert(self.queue@[self.queue@.len() - 1] == t);
                }
            }
        }
        Ok(id)
    }

    /// The execution thread takes the oldest queued task, to poll it next.
    pub fn take_next(&mut self) -> (r: Option<usize>)
        requires
            old(self).wf(),
        ensures
            final(self).wf(),
            final(self).capacity == old(self).capacity,
            old(self).queue@.len() == 0 ==> (r is None && *final(self) == *old(self)),
            old(self).queue@.len() > 0 ==> {
                let id = old(self).queue@[0];
                &&& r == Some(id)
                &&& final(self).queue@ == old(self).queue@.skip(1)
                &&& final(self).statuses@ == old(self).statuses@.update(
                    id as int,
                    TaskStatus::Running,
                )
            },
    {
        if self.queue.len() == 0 {
            return None;
        }
        let ghost pre = *self;
        let id = self.queue.remove(0);
        self.statuses.set(id, TaskStatus::Running);
        proof {
            assert(self.queue@ =~= pre.queue@.skip(1));
            assert forall|t: usize|
                t < self.statuses@.len() && self.statuses@[t as int]
                    == TaskStatus::Queued implies self.queue@.contains(t) by {
                assert(t != id);
                assert(pre.queue@.contains(t));
                let k = choose|k: int| 0 <= k < pre.queue@.len() && pre.queue@[k] == t;
                assert(pre.queue@[0] == id);
                assert(k != 0);
                assert(self.queue@[k - 1] == t);
            }
        }
        Some(id)
    }

    /// The execution thread reports the poll outcome of task `id`: a
    /// completed task is discarded; a pending one parks in its slot, to be
    /// re-enqueued only by a wake.
    pub fn report(&mut self, id: usize, completed: bool)
        requires
            old(self).wf(),
            (id as int) < old(self).statuses@.len(),
            old(self).statuses@[id as int] == TaskStatus::Running,
        ensures
            final(self).wf(),
            final(self).capacity == old(self).capacity,
            final(self).queue@ == old(self).queue@,
            final(self).statuses@ == old(self).statuses@.update(
                id as int,
                if completed {
                    TaskStatus::Done
                } else {
                    TaskStatus::Idle
                },
            ),
    {
        if completed {
            self.statuses.set(id, TaskStatus::Done);
        } else {
            self.statuses.set(id, TaskStatus::Idle);
        }
    }

    /// Wake task `id`: re-enqueue it when it is parked. A wake for a task
    /// that is queued, running, or already done is a harmless no-op — the
    /// running task re-registers its own waker on every pending poll, so a
    /// wake lost while it is polled is always followed by a fresh one.
    /// Fatal exactly when re-enqueueing would exceed the queue bound.
    pub fn wake(&mut self, id: usize) -> (r: Result<bool, QueueFull>)
        requires
            old(self).wf(),
            (id as int) < old(self).statuses@.len(),
        ensures
            final(self).wf(),
            final(self).capacity == old(self).capacity,
            old(self).statuses@[id as int] != TaskStatus::Idle ==> (r == Ok::<bool, QueueFull>(
                false,
            ) && *final(self) == *old(self)),
            old(self).statuses@[id as int] == TaskStatus::Idle ==> {
                if old(self).queue@.len() == old(self).capacity {
                    r == Err::<bool, QueueFull>(QueueFull) && *final(self) == *old(self)
                } else {
                    &&& r == Ok::<bool, QueueFull>(true)
                    &&& final(self).queue@ == old(self).queue@.push(id)
                    &&& final(self).statuses@ == old(self).statuses@.update(
                        id as int,
                        TaskStatus::Queued,
                    )
                }
            },
    {
        let parked = matches!(self.statuses[id], TaskStatus::Idle);
        if !parked {
            return Ok(false);
        }
        if self.queue.len() == self.capacity {
            return Err(QueueFull);
        }
        self.statuses.set(id, TaskStatus::Queued);
        self.queue.push(id);
        proof {
            assert forall|i: int|
                0 <= i < self.queue@.len() - 1 implies self.queue@[i] != id by {
                assert(old(self).statuses@[old(self).queue@[i] as int] == TaskStatus::Queued);
            }
            assert forall|t: usize|
                t < self.statuses@.len() && self.statuses@[t as int]
                    == TaskStatus::Queued implies self.queue@.contains(t) by {
                if t == id {
                    assert(self.queue@[self.queue@.len() - 1] == t);
                } else {
                    let k = choose|k: int|
                        0 <= k < old(self).queue@.len() && old(self).queue@[k] == t;
                    assert(self.queue@[k] == t);
                }
            }
        }
        Ok(true)
    }
}

} // verus!
