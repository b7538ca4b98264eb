//! The crawl scheduler: a queue of tasks and the count of those at work,
//! held below a job limit.

use vstd::prelude::*;
use crate::task::{Task, TaskView};
use std::collections::VecDeque;

verus! {

/// The tasks that were submitted and have not finished: those that wait,
/// in the order of their submission, and the number of those at work.
pub struct Scheduler {
    limit: usize,
    waiting: VecDeque<Task>,
    running: usize,
}

/// The state of a scheduler.
pub struct Counters {
    /// The greatest number of tasks that may be at work at once.
    pub limit: nat,
    /// The tasks that wait for a free slot, oldest first.
    pub waiting: Seq<TaskView>,
    /// The number of tasks at work.
    pub running: nat,
}

/// What can happen to a scheduler.
pub enum Op {
    /// A task is submitted.
    Submit(TaskView),
    /// The oldest waiting task is handed to a free slot, if there is one of each.
    Dispatch,
    /// A task at work ends, in whatever way.
    Complete,
}

impl Counters {
    /// The number of tasks that were submitted and have not finished.
    pub open spec fn queued(self) -> nat {
        self.waiting.len() + self.running
    }

    /// Whether a waiting task can be handed to a slot.
    pub open spec fn can_dispatch(self) -> bool {
        self.running < self.limit && self.waiting.len() > 0
    }

    /// The state after `op`. A dispatch without a free slot or a waiting
    /// task, and a completion with no task at work, change nothing.
    pub open spec fn step(self, op: Op) -> Counters {
        match op {
            Op::Submit(task) => Counters { waiting: self.waiting.push(task), ..self },
            Op::Dispatch => if self.can_dispatch() {
                Counters {
                    waiting: self.waiting.drop_first(),
                    running: self.running + 1,
                    ..self
                }
            } else {
                self
            },
            Op::Complete => if self.running > 0 {
                Counters { running: (self.running - 1) as nat, ..self }
            } else {
                self
            },
        }
    }
}

/// The state of a new scheduler with job limit `limit`.
pub open spec fn initial(limit: nat) -> Counters {
    Counters { limit, waiting: Seq::empty(), running: 0 }
}

/// The state of a scheduler with job limit `limit` after `ops`.
pub open spec fn run(limit: nat, ops: Seq<Op>) -> Counters
    decreases ops.len(),
{
    if ops.len() == 0 {
        initial(limit)
    } else {
        run(limit, ops.drop_last()).step(ops.last())
    }
}

/// The number of tasks submitted in `ops`.
pub open spec fn submitted(ops: Seq<Op>) -> nat
    decreases ops.len(),
{
    if ops.len() == 0 {
        0
    } else {
        submitted(ops.drop_last()) + if ops.last() is Submit {
            1nat
        } else {
            0nat
        }
    }
}

/// The number of tasks that ended in `ops`, on a scheduler with job limit `limit`.
pub open spec fn finished(limit: nat, ops: Seq<Op>) -> nat
    decreases ops.len(),
{
    if ops.len() == 0 {
        0
    } else {
        finished(limit, ops.drop_last()) + if ops.last() is Complete && run(
            limit,
            ops.drop_last(),
        ).running > 0 {
            1nat
        } else {
            0nat
        }
    }
}

/// Whatever is submitted, dispatched and completed, in whatever order, the
/// number of tasks at work never exceeds the job limit.
pub proof fn running_stays_within_limit(limit: nat, ops: Seq<Op>)
    ensures
        run(limit, ops).running <= limit,
        run(limit, ops).limit == limit,
    decreases ops.len(),
{
    if ops.len() > 0 {
        running_stays_within_limit(limit, ops.drop_last());
    }
}

/// After any operations the count of outstanding tasks is the number of
/// tasks submitted less the number of tasks that ended. So it is zero if
/// and only if no submitted task is still waiting or at work.
pub proof fn queued_counts_tasks_in_flight(limit: nat, ops: Seq<Op>)
    ensures
        finished(limit, ops) <= submitted(ops),
        run(limit, ops).queued() == submitted(ops) - finished(limit, ops),
        run(limit, ops).queued() == 0 <==> submitted(ops) == finished(limit, ops),
        run(limit, ops).queued() == 0 <==> run(limit, ops).waiting.len() == 0 && run(
            limit,
            ops,
        ).running == 0,
    decreases ops.len(),
{
    if ops.len() > 0 {
        queued_counts_tasks_in_flight(limit, ops.drop_last());
    }
}

/// The state after every task at work has ended.
pub open spec fn finish_all(c: Counters) -> Counters
    decreases c.running,
{
    if c.running > 0 {
        finish_all(c.step(Op::Complete))
    } else {
        c
    }
}

/// The state after each waiting task was dispatched and has ended, one
/// after the other.
pub open spec fn drain(c: Counters) -> Counters
    decreases c.waiting.len(),
{
    if c.can_dispatch() {
        drain(c.step(Op::Dispatch).step(Op::Complete))
    } else {
        c
    }
}

/// With at least one slot, whatever was submitted can be worked off: once
/// the tasks at work have ended and each waiting task was dispatched and
/// has ended in turn, no task is outstanding.
pub proof fn outstanding_work_can_reach_zero(c: Counters)
    requires
        c.limit > 0,
        c.running <= c.limit,
    ensures
        drain(finish_all(c)).queued() == 0,
{
    lemma_finish_all(c);
    lemma_drain(finish_all(c));
}

proof fn lemma_finish_all(c: Counters)
    ensures
        finish_all(c).running == 0,
        finish_all(c).waiting == c.waiting,
        finish_all(c).limit == c.limit,
    decreases c.running,
{
    if c.running > 0 {
        lemma_finish_all(c.step(Op::Complete));
    }
}

proof fn lemma_drain(c: Counters)
    requires
        c.limit > 0,
        c.running == 0,
    ensures
        drain(c).queued() == 0,
    decreases c.waiting.len(),
{
    if c.can_dispatch() {
        lemma_drain(c.step(Op::Dispatch).step(Op::Complete));
    }
}

impl View for Scheduler {
    type V = Counters;

    closed spec fn view(&self) -> Counters {
        Counters {
            limit: self.limit as nat,
            waiting: self.waiting@.map_values(|t: Task| t@),
            running: self.running as nat,
        }
    }
}

impl Scheduler {
    /// Whether the state is one that a scheduler can be in: no more tasks
    /// at work than the limit allows, and no more outstanding than can be
    /// counted.
    pub open spec fn wf(&self) -> bool {
        self@.running <= self@.limit && self@.queued() <= usize::MAX
    }

    /// A scheduler with job limit `limit` and no task.
    pub fn new(limit: usize) -> (s: Scheduler)
        ensures
            s.wf(),
            s@ == initial(limit as nat),
    {
        let s = Scheduler { limit, waiting: VecDeque::new(), running: 0 };
        assert(s@.waiting =~= Seq::<TaskView>::empty());
        s
    }

    /// The job limit.
    pub fn limit(&self) -> (n: usize)
        ensures
            n == self@.limit,
    {
        self.limit
    }

    /// The number of tasks at work.
    pub fn running(&self) -> (n: usize)
        requires
            self.wf(),
        ensures
            n == self@.running,
    {
        self.running
    }

    /// The number of tasks that were submitted and have not finished.
    pub fn queued(&self) -> (n: usize)
        requires
            self.wf(),
        ensures
            n == self@.queued(),
    {
        self.waiting.len() + self.running
    }

    /// Whether no task is outstanding.
    pub fn is_idle(&self) -> (b: bool)
        requires
            self.wf(),
        ensures
            b == (self@.queued() == 0),
    {
        self.waiting.len() == 0 && self.running == 0
    }

    /// Registers `task` for execution, behind the tasks that wait already.
    pub fn submit(&mut self, task: Task)
        requires
            old(self).wf(),
            old(self)@.queued() < usize::MAX,
        ensures
            final(self).wf(),
            final(self)@ == old(self)@.step(Op::Submit(task@)),
            final(self)@.queued() == old(self)@.queued() + 1,
    {
        self.waiting.push_back(task);
        assert(self@.waiting =~= old(self)@.waiting.push(task@));
    }

    /// Hands out the oldest waiting task if a slot is free, and counts it
    /// as at work.
    pub fn dispatch(&mut self) -> (r: Option<Task>)
        requires
            old(self).wf(),
        ensures
            final(self).wf(),
            final(self)@ == old(self)@.step(Op::Dispatch),
            match r {
                Some(task) => old(self)@.can_dispatch() && task@ == old(self)@.waiting[0],
                None => !old(self)@.can_dispatch(),
            },
            final(self)@.queued() == old(self)@.queued(),
    {
        if self.running < self.limit && self.waiting.len() > 0 {
            let task = self.waiting.pop_front();
            self.running = self.running + 1;
            assert(self@.waiting =~= old(self)@.waiting.drop_first());
            task
        } else {
            None
        }
    }

    /// Records that a task at work has ended, however it ended.
    pub fn complete(&mut self)
        requires
            old(self).wf(),
            old(self)@.running > 0,
        ensures
            final(self).wf(),
            final(self)@ == old(self)@.step(Op::Complete),
            final(self)@.running == old(self)@.running - 1,
            final(self)@.queued() == old(self)@.queued() - 1,
    {
        self.running = self.running - 1;
    }
}

} // verus!
