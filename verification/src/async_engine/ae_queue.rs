//! The dispatch queue: runnables are queued per phase and dispatched one
//! phase after the other; wakers of yielding tasks are woken after each
//! iteration.

use vstd::prelude::*;
use crate::async_engine::{AsyncError, Phase, NUM_PHASES, spec_phase_index};

verus! {

/// The total number of queued items.
pub open spec fn spec_total<R>(queues: Seq<Vec<R>>) -> nat
    decreases queues.len(),
{
    if queues.len() == 0 {
        0
    } else {
        spec_total(queues.drop_last()) + queues.last()@.len()
    }
}

/// The first phase at or after `start` whose queue is not empty, or
/// `NUM_PHASES` if there is none.
pub open spec fn spec_first_nonempty<R>(queues: Seq<Vec<R>>, start: int) -> int
    decreases NUM_PHASES - start,
{
    if start >= NUM_PHASES {
        NUM_PHASES as int
    } else if queues[start]@.len() > 0 {
        start
    } else {
        spec_first_nonempty(queues, start + 1)
    }
}

proof fn lemma_first_nonempty<R>(queues: Seq<Vec<R>>, start: int)
    requires
        0 <= start <= NUM_PHASES,
        queues.len() == NUM_PHASES,
    ensures
        start <= spec_first_nonempty(queues, start) <= NUM_PHASES,
        spec_first_nonempty(queues, start) < NUM_PHASES ==> queues[spec_first_nonempty(queues, start)]@.len() > 0,
        forall|i: int| start <= i < spec_first_nonempty(queues, start) ==> queues[i]@.len() == 0,
    decreases NUM_PHASES - start,
{
    if start < NUM_PHASES && queues[start]@.len() == 0 {
        lemma_first_nonempty(queues, start + 1);
    }
}

proof fn lemma_total_update<R>(queues: Seq<Vec<R>>, i: int, v: Vec<R>)
    requires
        0 <= i < queues.len(),
    ensures
        spec_total(queues.update(i, v)) == spec_total(queues) - queues[i]@.len() + v@.len(),
    decreases queues.len(),
{
    if i == queues.len() - 1 {
        assert(queues.update(i, v).drop_last() =~= queues.drop_last());
    } else {
        lemma_total_update(queues.drop_last(), i, v);
        assert(queues.update(i, v).drop_last() =~= queues.drop_last().update(i, v));
    }
}

/// The iteration count after a step: a step starts an iteration (a round)
/// when no iteration is under way and anything is queued.
pub open spec fn spec_next_iteration(iteration: int, active: bool, num_queued: nat) -> int {
    if !active && num_queued > 0 {
        iteration + 1
    } else {
        iteration
    }
}

/// An operation on a dispatch queue, as far as the iteration count is
/// concerned: a dispatch step is given by whether an iteration was under
/// way and how many runnables were queued when it was taken.
#[derive(Debug, Copy, Clone, PartialEq, Eq, Structural)]
pub enum QueueOp {
    Push,
    PushYield,
    Clear,
    Query,
    Step { active: bool, num_queued: usize },
}

/// The iteration count after one operation (see the contracts of
/// `push`, `push_yield`, `clear`, `iteration` and `dispatch_step`).
pub open spec fn spec_op_iteration(iteration: int, op: QueueOp) -> int {
    match op {
        QueueOp::Step { active, num_queued } => spec_next_iteration(iteration, active, num_queued as nat),
        _ => iteration,
    }
}

/// The iteration count after a run of operations.
pub open spec fn spec_ops_iteration(iteration: int, ops: Seq<QueueOp>) -> int
    decreases ops.len(),
{
    if ops.len() == 0 {
        iteration
    } else {
        spec_op_iteration(spec_ops_iteration(iteration, ops.drop_last()), ops.last())
    }
}

/// The number of those operations that start a dispatch round.
pub open spec fn spec_rounds(ops: Seq<QueueOp>) -> nat
    decreases ops.len(),
{
    if ops.len() == 0 {
        0
    } else {
        spec_rounds(ops.drop_last()) + match ops.last() {
            QueueOp::Step { active, num_queued } => if !active && num_queued > 0 {
                1nat
            } else {
                0nat
            },
            _ => 0nat,
        }
    }
}

/// The iteration count grows only by rounds: over any run of operations on
/// the queue it grows by the number of dispatch rounds they start, and by
/// nothing else, so it never decreases.
pub proof fn lemma_iteration_counts_rounds(iteration: int, ops: Seq<QueueOp>)
    ensures
        spec_ops_iteration(iteration, ops) == iteration + spec_rounds(ops),
        spec_ops_iteration(iteration, ops) >= iteration,
    decreases ops.len(),
{
    if ops.len() > 0 {
        lemma_iteration_counts_rounds(iteration, ops.drop_last());
    }
}

/// Where a dispatch stands: whether an iteration is under way and which
/// phase it has reached.
#[derive(Debug, Copy, Clone, PartialEq, Eq, Structural)]
pub struct DispatchCursor {
    pub active: bool,
    pub phase: usize,
}

impl DispatchCursor {
    pub fn new() -> (r: Self)
        ensures
            !r.active,
            r.phase == 0,
    {
        DispatchCursor { active: false, phase: 0 }
    }
}

/// What the dispatcher does next.
pub enum DispatchStep<R, W> {
    /// Run these runnables, which were queued for this phase, in order.
    Run(Phase, Vec<R>),
    /// Wake these yielding tasks: an iteration has ended.
    Wake(Vec<W>),
    /// Nothing is queued: the dispatch is done.
    Finished,
}

pub struct DispatchQueue<R, W> {
    dispatch_scheduled: bool,
    num_queued: usize,
    queues: Vec<Vec<R>>,
    iteration: u64,
    yields: Vec<W>,
}

impl<R, W> DispatchQueue<R, W> {
    pub closed spec fn wf(&self) -> bool {
        self.queues@.len() == NUM_PHASES
    }

    /// The counter of queued runnables agrees with the queues.
    pub closed spec fn counted(&self) -> bool {
        self.num_queued == spec_total(self.queues@)
    }

    pub closed spec fn spec_queue(&self, phase: int) -> Seq<R> {
        self.queues@[phase]@
    }

    pub closed spec fn spec_queues(&self) -> Seq<Vec<R>> {
        self.queues@
    }

    pub closed spec fn spec_num_queued(&self) -> nat {
        self.num_queued as nat
    }

    pub closed spec fn spec_iteration(&self) -> u64 {
        self.iteration
    }

    pub closed spec fn spec_scheduled(&self) -> bool {
        self.dispatch_scheduled
    }

    pub closed spec fn spec_yields(&self) -> Seq<W> {
        self.yields@
    }

    pub fn new() -> (r: Self)
        ensures
            r.wf(),
            r.counted(),
            r.spec_num_queued() == 0,
            r.spec_iteration() == 0,
            !r.spec_scheduled(),
            r.spec_yields().len() == 0,
            forall|p: int| 0 <= p < NUM_PHASES ==> r.spec_queue(p).len() == 0,
    {
        let mut queues: Vec<Vec<R>> = Vec::new();
        queues.push(Vec::new());
        queues.push(Vec::new());
        queues.push(Vec::new());
        queues.push(Vec::new());
        let r = DispatchQueue {
            dispatch_scheduled: false,
            num_queued: 0,
            queues,
            iteration: 0,
            yields: Vec::new(),
        };
        proof {
            reveal_with_fuel(spec_total, 5);
            assert(r.queues@.drop_last().drop_last().drop_last().drop_last() =~= Seq::<Vec<R>>::empty());
        }
        r
    }

    /// Drops every queued runnable and waker. The counter of queued
    /// runnables is left as it was.
    pub fn clear(&mut self)
        requires
            old(self).wf(),
        ensures
            final(self).wf(),
            forall|p: int| 0 <= p < NUM_PHASES ==> final(self).spec_queue(p).len() == 0,
            final(self).spec_yields().len() == 0,
            final(self).spec_num_queued() == old(self).spec_num_queued(),
            final(self).spec_iteration() == old(self).spec_iteration(),
            final(self).spec_iteration() == spec_op_iteration(old(self).spec_iteration() as int, QueueOp::Clear),
            final(self).spec_scheduled() == old(self).spec_scheduled(),
    {
        self.yields = Vec::new();
        let mut i: usize = 0;
        while i < NUM_PHASES
            invariant
                self.queues@.len() == NUM_PHASES,
                i <= NUM_PHASES,
                self.yields@.len() == 0,
                self.num_queued == old(self).num_queued,
                self.iteration == old(self).iteration,
                self.dispatch_scheduled == old(self).dispatch_scheduled,
                forall|p: int| 0 <= p < i ==> self.queues@[p]@.len() == 0,
            decreases NUM_PHASES - i,
        {
            self.queues.set(i, Vec::new());
            i += 1;
        }
    }

    /// Queues a runnable for a phase. Returns whether the event loop has to
    /// be asked to schedule a dispatch, which is the case when none is
    /// scheduled yet.
    pub fn push(&mut self, runnable: R, phase: Phase) -> (schedule: bool)
        requires
            old(self).wf(),
            old(self).spec_num_queued() < usize::MAX,
        ensures
            final(self).wf(),
            final(self).spec_queue(spec_phase_index(phase)) == old(self).spec_queue(spec_phase_index(phase)).push(runnable),
            forall|p: int| 0 <= p < NUM_PHASES && p != spec_phase_index(phase) ==> final(self).spec_queue(p) == old(self).spec_queue(p),
            final(self).spec_num_queued() == old(self).spec_num_queued() + 1,
            old(self).counted() ==> final(self).counted(),
            schedule == !old(self).spec_scheduled(),
            final(self).spec_scheduled(),
            final(self).spec_iteration() == old(self).spec_iteration(),
            final(self).spec_iteration() == spec_op_iteration(old(self).spec_iteration() as int, QueueOp::Push),
            final(self).spec_yields() == old(self).spec_yields(),
    {
        let idx = phase.index();
        let ghost old_queues = self.queues@;
        let mut q = self.queues.remove(idx);
        q.push(runnable);
        self.queues.insert(idx, q);
        proof {
            assert(self.queues@ =~= old_queues.update(idx as int, q));
            lemma_total_update(old_queues, idx as int, q);
        }
        self.num_queued = self.num_queued + 1;
        if !self.dispatch_scheduled {
            self.dispatch_scheduled = true;
            true
        } else {
            false
        }
    }

    /// Queues the waker of a yielding task.
    pub fn push_yield(&mut self, waker: W)
        ensures
            final(self).spec_yields() == old(self).spec_yields().push(waker),
            final(self).spec_queues() == old(self).spec_queues(),
            final(self).spec_num_queued() == old(self).spec_num_queued(),
            final(self).spec_iteration() == old(self).spec_iteration(),
            final(self).spec_iteration() == spec_op_iteration(old(self).spec_iteration() as int, QueueOp::PushYield),
            final(self).spec_scheduled() == old(self).spec_scheduled(),
            old(self).wf() ==> final(self).wf(),
            old(self).counted() ==> final(self).counted(),
    {
        self.yields.push(waker);
    }

    /// The number of dispatch iterations that have started.
    pub fn iteration(&self) -> (r: u64)
        ensures
            r == self.spec_iteration(),
    {
        self.iteration
    }

    /// The next step of a dispatch. An idle cursor starts an iteration if
    /// anything is queued and finishes the dispatch otherwise. An active
    /// cursor hands out the queue of the first phase, at or after the phase
    /// it reached, that holds runnables; when no later phase holds any, the
    /// iteration ends by handing out the yielded wakers.
    pub fn dispatch_step(&mut self, cursor: &mut DispatchCursor) -> (r: DispatchStep<R, W>)
        requires
            old(self).wf(),
            old(cursor).phase <= NUM_PHASES,
            old(self).spec_num_queued() >= spec_total(old(self).spec_queues()),
            old(self).spec_iteration() < u64::MAX,
        ensures
            final(self).wf(),
            final(self).spec_iteration() == spec_op_iteration(
                old(self).spec_iteration() as int,
                QueueOp::Step { active: old(cursor).active, num_queued: old(self).spec_num_queued() as usize },
            ),
            final(cursor).phase <= NUM_PHASES,
            final(self).spec_num_queued() >= spec_total(final(self).spec_queues()),
            old(self).counted() ==> final(self).counted(),
            ({
                let start = if old(cursor).active { old(cursor).phase as int } else { 0 };
                let begins = !old(cursor).active;
                let iteration = if begins { old(self).spec_iteration() + 1 } else { old(self).spec_iteration() as int };
                let p = spec_first_nonempty(old(self).spec_queues(), start);
                if begins && old(self).spec_num_queued() == 0 {
                    &&& r is Finished
                    &&& !final(self).spec_scheduled()
                    &&& final(self).spec_queues() == old(self).spec_queues()
                    &&& final(self).spec_yields() == old(self).spec_yields()
                    &&& final(self).spec_iteration() == old(self).spec_iteration()
                    &&& *final(cursor) == *old(cursor)
                } else if p < NUM_PHASES {
                    &&& r matches DispatchStep::Run(phase, batch)
                        && spec_phase_index(phase) == p
                        && batch@ == old(self).spec_queue(p)
                    &&& final(self).spec_queue(p).len() == 0
                    &&& forall|i: int| 0 <= i < NUM_PHASES && i != p ==> final(self).spec_queue(i) == old(self).spec_queue(i)
                    &&& final(self).spec_num_queued() == old(self).spec_num_queued() - old(self).spec_queue(p).len()
                    &&& final(self).spec_yields() == old(self).spec_yields()
                    &&& final(self).spec_iteration() == iteration
                    &&& final(self).spec_scheduled() == old(self).spec_scheduled()
                    &&& final(cursor).active
                    &&& final(cursor).phase == p
                } else {
                    &&& r matches DispatchStep::Wake(wakers) && wakers@ == old(self).spec_yields()
                    &&& final(self).spec_yields().len() == 0
                    &&& final(self).spec_queues() == old(self).spec_queues()
                    &&& final(self).spec_num_queued() == old(self).spec_num_queued()
                    &&& final(self).spec_iteration() == iteration
                    &&& final(self).spec_scheduled() == old(self).spec_scheduled()
                    &&& !final(cursor).active
                    &&& final(cursor).phase == 0
                }
            }),
    {
        if !cursor.active {
            if self.num_queued == 0 {
                self.dispatch_scheduled = false;
                return DispatchStep::Finished;
            }
            self.iteration = self.iteration + 1;
            cursor.active = true;
            cursor.phase = 0;
        }
        proof {
            lemma_first_nonempty(self.queues@, cursor.phase as int);
        }
        let ghost start = cursor.phase as int;
        let ghost q0 = self.queues@;
        let ghost n0 = self.num_queued;
        let ghost it0 = self.iteration;
        let ghost y0 = self.yields@;
        let ghost sch0 = self.dispatch_scheduled;
        while cursor.phase < NUM_PHASES
            invariant
                q0 == old(self).queues@,
                n0 == old(self).num_queued,
                y0 == old(self).yields@,
                sch0 == old(self).dispatch_scheduled,
                it0 == (if old(cursor).active { old(self).iteration as int } else { old(self).iteration + 1 }),
                start == (if old(cursor).active { old(cursor).phase as int } else { 0 }),
                old(cursor).active || old(self).num_queued > 0,
                self.queues@ == q0,
                self.num_queued == n0,
                self.iteration == it0,
                self.yields@ == y0,
                self.dispatch_scheduled == sch0,
                n0 >= spec_total(q0),
                self.queues@.len() == NUM_PHASES,
                start <= cursor.phase <= NUM_PHASES,
                cursor.active,
                spec_first_nonempty(self.queues@, start) == spec_first_nonempty(self.queues@, cursor.phase as int),
                forall|i: int| start <= i < cursor.phase ==> self.queues@[i]@.len() == 0,
            decreases NUM_PHASES - cursor.phase,
        {
            let idx = cursor.phase;
            if self.queues[idx].len() > 0 {
                let ghost old_queues = self.queues@;
                proof {
                    lemma_total_update(old_queues, idx as int, old_queues[idx as int]);
                }
                let batch = self.queues.remove(idx);
                let empty: Vec<R> = Vec::new();
                let ghost empty_ghost = empty;
                self.queues.insert(idx, empty);
                proof {
                    assert(self.queues@ =~= old_queues.update(idx as int, empty_ghost));
                    lemma_total_update(old_queues, idx as int, empty_ghost);
                }
                self.num_queued = self.num_queued - batch.len();
                return DispatchStep::Run(Phase::from_index(idx), batch);
            }
            cursor.phase = cursor.phase + 1;
        }
        cursor.active = false;
        cursor.phase = 0;
        let mut wakers: Vec<W> = Vec::new();
        std::mem::swap(&mut wakers, &mut self.yields);
        DispatchStep::Wake(wakers)
    }
}

/// Within one iteration the dispatcher never goes back to an earlier phase:
/// the phase that a step runs is at least the phase that the cursor reached.
pub proof fn lemma_phases_do_not_go_back<R>(queues: Seq<Vec<R>>, reached: int)
    requires
        queues.len() == NUM_PHASES,
        0 <= reached <= NUM_PHASES,
    ensures
        spec_first_nonempty(queues, reached) >= reached,
{
    lemma_first_nonempty(queues, reached);
}

/// A step never hands out an empty batch, and the phases that it skips hold
/// no runnables.
pub proof fn lemma_run_batches_are_not_empty<R>(queues: Seq<Vec<R>>, start: int)
    requires
        queues.len() == NUM_PHASES,
        0 <= start <= NUM_PHASES,
    ensures
        spec_first_nonempty(queues, start) < NUM_PHASES ==> queues[spec_first_nonempty(queues, start)]@.len() > 0,
        forall|i: int| start <= i < spec_first_nonempty(queues, start) ==> queues[i]@.len() == 0,
{
    lemma_first_nonempty(queues, start);
}

/// When the counter agrees with the queues, a counter of zero means that
/// every queue is empty, so a finished dispatch leaves nothing behind.
pub proof fn lemma_finished_means_empty<R>(queues: Seq<Vec<R>>)
    requires
        spec_total(queues) == 0,
    ensures
        forall|i: int| 0 <= i < queues.len() ==> queues[i]@.len() == 0,
    decreases queues.len(),
{
    if queues.len() > 0 {
        lemma_finished_means_empty(queues.drop_last());
        assert forall|i: int| 0 <= i < queues.len() implies queues[i]@.len() == 0 by {
            if i < queues.len() - 1 {
                assert(queues[i] == queues.drop_last()[i]);
            }
        }
    }
}

/// The dispatcher of an event loop: it owns the loop's dispatch queue.
pub struct Dispatcher;

impl Dispatcher {
    /// Creates the dispatch queue of an event loop; `registered` is the
    /// outcome of registering the dispatcher with the loop, whose failure
    /// is the result.
    pub fn install<R, W>(registered: Result<(), AsyncError>) -> (r: Result<DispatchQueue<R, W>, AsyncError>)
        ensures
            match registered {
                Ok(()) => r matches Ok(q) && {
                    &&& q.wf()
                    &&& q.counted()
                    &&& q.spec_num_queued() == 0
                    &&& q.spec_iteration() == 0
                    &&& !q.spec_scheduled()
                    &&& q.spec_yields().len() == 0
                    &&& forall|p: int| 0 <= p < NUM_PHASES ==> q.spec_queue(p).len() == 0
                },
                Err(e) => r matches Err(x) && x == e,
            },
    {
        let queue = DispatchQueue::new();
        match registered {
            Ok(()) => Ok(queue),
            Err(e) => Err(e),
        }
    }
}

} // verus!
