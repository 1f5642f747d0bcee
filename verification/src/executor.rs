//! A minimal single-threaded task executor.
//!
//! Spawned futures are kept in slots, one per task, and a first-in first-out
//! queue holds the tasks that are due to be polled. Spawning a future and
//! waking a task both append the task to the queue; the run loop takes tasks
//! from its front, checks the task's future out of its slot, polls it (that
//! part is the caller's) and checks it back in.

use vstd::prelude::*;
use std::collections::VecDeque;

verus! {

/// A handle to a task spawned on a [`MiniTokio`] executor.
#[derive(Debug, Clone, Copy, PartialEq, Eq)]
pub struct Task {
    id: usize,
}

/// The executor: the futures of all spawned tasks, and the queue of tasks
/// that are due to be polled.
pub struct MiniTokio<F> {
    futures: Vec<Option<F>>,
    scheduled: VecDeque<usize>,
}

impl Task {
    /// The task's number: the count of tasks spawned on the executor before it.
    pub closed spec fn spec_id(&self) -> usize {
        self.id
    }

    /// The task's number.
    #[verifier::when_used_as_spec(spec_id)]
    pub fn id(&self) -> (id: usize)
        ensures
            id == self.spec_id(),
    {
        self.id
    }

    /// Puts the task at the back of its executor's run queue.
    pub fn schedule<F>(&self, executor: &mut MiniTokio<F>)
        requires
            old(executor).wf(),
            self.spec_id() < old(executor).futures().len(),
        ensures
            final(executor).wf(),
            final(executor).futures() == old(executor).futures(),
            final(executor).queue() == old(executor).queue().push(self.spec_id()),
    {
        executor.scheduled.push_back(self.id);
    }

    /// Waking a task schedules it again.
    pub fn wake_by_ref<F>(task: &Task, executor: &mut MiniTokio<F>)
        requires
            old(executor).wf(),
            task.spec_id() < old(executor).futures().len(),
        ensures
            final(executor).wf(),
            final(executor).futures() == old(executor).futures(),
            final(executor).queue() == old(executor).queue().push(task.spec_id()),
    {
        task.schedule(executor);
    }

    /// Makes a new task out of `future` and sends it to the executor's queue.
    pub fn spawn<F>(future: F, executor: &mut MiniTokio<F>) -> (task: Task)
        requires
            old(executor).wf(),
            old(executor).futures().len() < usize::MAX,
        ensures
            final(executor).wf(),
            task.spec_id() == old(executor).futures().len(),
            final(executor).futures() == old(executor).futures().push(Some(future)),
            final(executor).queue() == old(executor).queue().push(task.spec_id()),
    {
        let task = Task { id: executor.futures.len() };
        executor.futures.push(Some(future));
        executor.scheduled.push_back(task.id);
        task
    }
}

impl<F> MiniTokio<F> {
    /// Well-formedness: every queued task has been spawned.
    pub closed spec fn wf(&self) -> bool {
        forall|i: int| 0 <= i < self.scheduled@.len() ==> #[trigger] self.scheduled@[i] < self.futures@.len()
    }

    /// The future of each spawned task, by task number; `None` while it is
    /// checked out to be polled.
    pub closed spec fn futures(&self) -> Seq<Option<F>> {
        self.futures@
    }

    /// The task numbers waiting in the run queue, front first.
    pub closed spec fn queue(&self) -> Seq<usize> {
        self.scheduled@
    }

    /// An executor with no tasks and an empty queue.
    pub fn new() -> (e: MiniTokio<F>)
        ensures
            e.wf(),
            e.futures() == Seq::<Option<F>>::empty(),
            e.queue() == Seq::<usize>::empty(),
    {
        MiniTokio { futures: Vec::new(), scheduled: VecDeque::new() }
    }

    /// Spawns `future` as a new task, which is queued to be polled.
    pub fn spawn(&mut self, future: F) -> (task: Task)
        requires
            old(self).wf(),
            old(self).futures().len() < usize::MAX,
        ensures
            final(self).wf(),
            task.spec_id() == old(self).futures().len(),
            final(self).futures() == old(self).futures().push(Some(future)),
            final(self).queue() == old(self).queue().push(task.spec_id()),
    {
        Task::spawn(future, self)
    }

    /// Takes the next task off the front of the queue, if any (one receive of
    /// the run loop).
    pub fn next_scheduled(&mut self) -> (task: Option<Task>)
        requires
            old(self).wf(),
        ensures
            final(self).wf(),
            final(self).futures() == old(self).futures(),
            old(self).queue().len() == 0 ==> task is None && final(self).queue() == old(self).queue(),
            old(self).queue().len() > 0 ==> task is Some && task->0.spec_id() == old(self).queue()[0]
                && final(self).queue() == old(self).queue().drop_first(),
            task matches Some(t) ==> t.spec_id() < final(self).futures().len(),
    {
        match self.scheduled.pop_front() {
            Some(id) => {
                assert(self.scheduled@ =~= old(self).scheduled@.drop_first());
                Some(Task { id })
            },
            None => None,
        }
    }

    /// Whether the task's future is in its slot (not checked out).
    pub fn is_idle(&self, task: &Task) -> (b: bool)
        requires
            task.spec_id() < self.futures().len(),
        ensures
            b == (self.futures()[task.spec_id() as int] is Some),
    {
        self.futures[task.id].is_some()
    }

    /// Checks the task's future out of its slot to poll it; the slot stays
    /// empty until the future is checked back in.
    pub fn checkout(&mut self, task: &Task) -> (future: F)
        requires
            old(self).wf(),
            task.spec_id() < old(self).futures().len(),
            old(self).futures()[task.spec_id() as int] is Some,
        ensures
            final(self).wf(),
            Some(future) == old(self).futures()[task.spec_id() as int],
            final(self).futures() == old(self).futures().update(task.spec_id() as int, None),
            final(self).queue() == old(self).queue(),
    {
        let mut slot: Option<F> = None;
        self.futures.set_and_swap(task.id, &mut slot);
        slot.unwrap()
    }

    /// Puts a polled future back into its task's slot.
    pub fn checkin(&mut self, task: &Task, future: F)
        requires
            old(self).wf(),
            task.spec_id() < old(self).futures().len(),
        ensures
            final(self).wf(),
            final(self).futures() == old(self).futures().update(task.spec_id() as int, Some(future)),
            final(self).queue() == old(self).queue(),
    {
        self.futures.set(task.id, Some(future));
    }
}

/// An operation on the run queue: a task appended at the back (by spawning
/// or waking it), or the front task taken off by the run loop.
pub enum QueueOp {
    Push(usize),
    Pop,
}

/// The queue after `ops`, starting from `queue`, and the tasks taken off it
/// in order.
pub open spec fn queue_run(queue: Seq<usize>, ops: Seq<QueueOp>) -> (Seq<usize>, Seq<usize>)
    decreases ops.len(),
{
    if ops.len() == 0 {
        (queue, Seq::empty())
    } else {
        let last = ops.last();
        let (q, taken) = queue_run(queue, ops.drop_last());
        match last {
            QueueOp::Push(id) => (q.push(id), taken),
            QueueOp::Pop => if q.len() > 0 {
                (q.drop_first(), taken.push(q[0]))
            } else {
                (q, taken)
            },
        }
    }
}

/// The tasks that `ops` append, in order.
pub open spec fn pushed(ops: Seq<QueueOp>) -> Seq<usize>
    decreases ops.len(),
{
    if ops.len() == 0 {
        Seq::empty()
    } else {
        match ops.last() {
            QueueOp::Push(id) => pushed(ops.drop_last()).push(id),
            QueueOp::Pop => pushed(ops.drop_last()),
        }
    }
}

/// The run queue is first-in first-out: whatever mix of spawns, wakes and
/// receives happens, the tasks handed to the run loop followed by those
/// still waiting are exactly the tasks that were waiting at the start
/// followed by those scheduled since, in the same order. No scheduled poll
/// is lost, duplicated or reordered.
pub proof fn lemma_queue_fifo(queue: Seq<usize>, ops: Seq<QueueOp>)
    ensures
        queue_run(queue, ops).1 + queue_run(queue, ops).0 == queue + pushed(ops),
    decreases ops.len(),
{
    if ops.len() > 0 {
        lemma_queue_fifo(queue, ops.drop_last());
        let (q, taken) = queue_run(queue, ops.drop_last());
        match ops.last() {
            QueueOp::Push(id) => {
                assert(taken + q.push(id) =~= (taken + q).push(id));
                assert(queue + pushed(ops.drop_last()).push(id) =~= (queue + pushed(ops.drop_last())).push(id));
            },
            QueueOp::Pop => {
                if q.len() > 0 {
                    assert(taken.push(q[0]) + q.drop_first() =~= taken + q);
                }
            },
        }
    }
}

/// Checking a task's future out and the same future back in leaves the
/// executor's futures as they were.
pub proof fn lemma_checkout_checkin<F>(futures: Seq<Option<F>>, id: int, future: F)
    requires
        0 <= id < futures.len(),
        futures[id] == Some(future),
    ensures
        futures.update(id, None).update(id, Some(future)) == futures,
{
    assert(futures.update(id, None).update(id, Some(future)) =~= futures);
}

} // verus!
