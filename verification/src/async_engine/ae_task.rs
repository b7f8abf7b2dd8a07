//! The state of a spawned task: its flags, its reference count and what is
//! to be done with its future or result at each transition.

use vstd::prelude::*;

verus! {

/// The task sits in the dispatch queue or is being polled.
pub const RUNNING: u32 = 1;
/// The task was woken while it was running and must be run once more.
pub const RUN_AGAIN: u32 = 2;
/// The future has produced its result.
pub const COMPLETED: u32 = 4;
/// The result has been handed to the owner of the task.
pub const EMPTIED: u32 = 8;
/// The owner dropped its handle: the task must not run any more.
pub const CANCELLED: u32 = 16;

pub open spec fn flag_set(state: u32, flag: u32) -> bool {
    state & flag != 0
}

/// What the task's data slot holds.
#[derive(Debug, Copy, Clone, PartialEq, Eq, Structural)]
pub enum DataDrop {
    /// Drop the future: it never completed.
    Future,
    /// Drop the result: it was never taken.
    Result,
    /// Nothing is left to drop.
    Nothing,
}

/// What a poll of the owner's handle returns.
#[derive(Debug, Copy, Clone, PartialEq, Eq, Structural)]
pub enum HandlePoll {
    /// Not completed: the owner's waker is stored.
    Pending,
    /// Completed: the result is moved out to the owner.
    Ready,
    /// The result was already taken: polling again is a bug.
    AlreadyEmptied,
}

/// What remains to be done after the task's future was polled.
#[derive(Debug, Copy, Clone, PartialEq, Eq, Structural)]
pub struct RunEnd {
    /// Wake the owner waiting for the result.
    pub wake_owner: bool,
    /// Drop the data in the slot: the task was cancelled while it ran.
    pub drop: Option<DataDrop>,
    /// Queue the task again: it was woken while it ran.
    pub push_again: bool,
}

/// The flags and the reference count of a task. The owner's handle, each
/// queued runnable and each waker hold a reference.
pub struct TaskState {
    pub state: u32,
    pub ref_count: u64,
    /// The data slot has been dropped.
    pub dropped: Ghost<bool>,
}

proof fn lemma_flags(s: u32)
    by (bit_vector)
    ensures
        flag_set(s | RUNNING, RUNNING),
        flag_set(s | RUN_AGAIN, RUN_AGAIN),
        flag_set(s | COMPLETED, COMPLETED),
        flag_set(s | EMPTIED, EMPTIED),
        flag_set(s | CANCELLED, CANCELLED),
        !flag_set(s & !RUNNING, RUNNING),
        !flag_set(s & !RUN_AGAIN, RUN_AGAIN),
        flag_set(s | RUNNING, CANCELLED) == flag_set(s, CANCELLED),
        flag_set(s | RUNNING, COMPLETED) == flag_set(s, COMPLETED),
        flag_set(s | RUNNING, EMPTIED) == flag_set(s, EMPTIED),
        flag_set(s | RUN_AGAIN, CANCELLED) == flag_set(s, CANCELLED),
        flag_set(s | RUN_AGAIN, COMPLETED) == flag_set(s, COMPLETED),
        flag_set(s | RUN_AGAIN, RUNNING) == flag_set(s, RUNNING),
        flag_set(s | RUN_AGAIN, EMPTIED) == flag_set(s, EMPTIED),
        flag_set(s | COMPLETED, CANCELLED) == flag_set(s, CANCELLED),
        flag_set(s | COMPLETED, RUNNING) == flag_set(s, RUNNING),
        flag_set(s | COMPLETED, RUN_AGAIN) == flag_set(s, RUN_AGAIN),
        flag_set(s | COMPLETED, EMPTIED) == flag_set(s, EMPTIED),
        flag_set(s | EMPTIED, CANCELLED) == flag_set(s, CANCELLED),
        flag_set(s | EMPTIED, RUNNING) == flag_set(s, RUNNING),
        flag_set(s | EMPTIED, COMPLETED) == flag_set(s, COMPLETED),
        flag_set(s | EMPTIED, RUN_AGAIN) == flag_set(s, RUN_AGAIN),
        flag_set(s | CANCELLED, RUN_AGAIN) == flag_set(s, RUN_AGAIN),
        flag_set(s | CANCELLED, RUNNING) == flag_set(s, RUNNING),
        flag_set(s | CANCELLED, COMPLETED) == flag_set(s, COMPLETED),
        flag_set(s | CANCELLED, EMPTIED) == flag_set(s, EMPTIED),
        flag_set(s & !RUNNING, CANCELLED) == flag_set(s, CANCELLED),
        flag_set(s & !RUNNING, COMPLETED) == flag_set(s, COMPLETED),
        flag_set(s & !RUNNING, RUN_AGAIN) == flag_set(s, RUN_AGAIN),
        flag_set(s & !RUNNING, EMPTIED) == flag_set(s, EMPTIED),
        flag_set(s & !RUN_AGAIN, CANCELLED) == flag_set(s, CANCELLED),
        flag_set(s & !RUN_AGAIN, COMPLETED) == flag_set(s, COMPLETED),
        flag_set(s & !RUN_AGAIN, RUNNING) == flag_set(s, RUNNING),
        flag_set(s & !RUN_AGAIN, EMPTIED) == flag_set(s, EMPTIED),
        !flag_set(0u32, RUNNING) && !flag_set(0u32, RUN_AGAIN) && !flag_set(0u32, COMPLETED)
            && !flag_set(0u32, EMPTIED) && !flag_set(0u32, CANCELLED),
        (s & (COMPLETED | CANCELLED) == 0) == (!flag_set(s, COMPLETED) && !flag_set(s, CANCELLED)),
{
}

/// What the data slot holds in a state.
pub open spec fn spec_data(state: u32) -> DataDrop {
    if !flag_set(state, COMPLETED) {
        DataDrop::Future
    } else if !flag_set(state, EMPTIED) {
        DataDrop::Result
    } else {
        DataDrop::Nothing
    }
}

impl TaskState {
    /// The bookkeeping is consistent: a result is only taken after it was
    /// produced, and the slot has been dropped exactly when the task is
    /// cancelled and not running.
    pub open spec fn wf(&self) -> bool {
        &&& flag_set(self.state, EMPTIED) ==> flag_set(self.state, COMPLETED)
        &&& self.dropped@ == (flag_set(self.state, CANCELLED) && !flag_set(self.state, RUNNING))
        &&& flag_set(self.state, RUNNING) ==> !flag_set(self.state, COMPLETED)
    }

    /// A new task, referenced by its owner's handle only.
    pub fn new() -> (r: Self)
        ensures
            r.wf(),
            r.state == 0,
            r.ref_count == 1,
            !r.dropped@,
    {
        proof { lemma_flags(0); }
        TaskState { state: 0, ref_count: 1, dropped: Ghost(false) }
    }

    /// Takes a reference.
    pub fn inc_ref_count(&mut self)
        requires
            old(self).ref_count < u64::MAX,
        ensures
            final(self).ref_count == old(self).ref_count + 1,
            final(self).state == old(self).state,
            final(self).dropped == old(self).dropped,
    {
        self.ref_count = self.ref_count + 1;
    }

    /// Releases a reference. Returns whether it was the last one, in which
    /// case the task is freed.
    pub fn dec_ref_count(&mut self) -> (free: bool)
        requires
            old(self).ref_count > 0,
        ensures
            final(self).ref_count == old(self).ref_count - 1,
            free == (old(self).ref_count == 1),
            final(self).state == old(self).state,
            final(self).dropped == old(self).dropped,
    {
        self.ref_count = self.ref_count - 1;
        self.ref_count == 0
    }

    /// The task was woken. Returns whether a runnable must be pushed to the
    /// dispatch queue; that runnable holds a new reference. A task that is
    /// already running is only marked to run again, and a completed or
    /// cancelled task is left alone.
    pub fn schedule_run(&mut self) -> (push: bool)
        requires
            old(self).wf(),
            old(self).ref_count < u64::MAX,
        ensures
            final(self).wf(),
            push == (!flag_set(old(self).state, COMPLETED) && !flag_set(old(self).state, CANCELLED)
                && !flag_set(old(self).state, RUNNING)),
            final(self).ref_count == old(self).ref_count + (if push { 1int } else { 0 }),
            push ==> flag_set(final(self).state, RUNNING),
            spec_data(final(self).state) == spec_data(old(self).state),
            flag_set(final(self).state, CANCELLED) == flag_set(old(self).state, CANCELLED),
            final(self).dropped == old(self).dropped,
            (flag_set(old(self).state, COMPLETED) || flag_set(old(self).state, CANCELLED)) ==> final(self).state == old(self).state,
            push ==> final(self).state == old(self).state | RUNNING,
            !flag_set(old(self).state, COMPLETED) && !flag_set(old(self).state, CANCELLED) && flag_set(old(self).state, RUNNING)
                ==> final(self).state == old(self).state | RUN_AGAIN,
    {
        proof { lemma_flags(self.state); }
        if self.state & (COMPLETED | CANCELLED) == 0 {
            if self.state & RUNNING == 0 {
                self.state = self.state | RUNNING;
                self.ref_count = self.ref_count + 1;
                true
            } else {
                self.state = self.state | RUN_AGAIN;
                false
            }
        } else {
            false
        }
    }

    /// A queued runnable of the task starts. Returns whether the future is
    /// to be polled, which is the case unless the task was cancelled; the
    /// waker created for the poll holds a new reference.
    pub fn run_begin(&mut self) -> (poll: bool)
        requires
            old(self).wf(),
            flag_set(old(self).state, RUNNING),
            old(self).ref_count < u64::MAX,
        ensures
            final(self).wf(),
            poll == !flag_set(old(self).state, CANCELLED),
            !flag_set(old(self).state, COMPLETED),
            final(self).state == old(self).state,
            final(self).dropped == old(self).dropped,
            final(self).ref_count == old(self).ref_count + (if poll { 1int } else { 0 }),
    {
        if self.state & CANCELLED == 0 {
            self.ref_count = self.ref_count + 1;
            true
        } else {
            false
        }
    }

    /// The run of a task ends; `ready` tells whether the poll of its future
    /// produced the result. The result is recorded and the owner is to be
    /// woken; the task stops running; a task cancelled meanwhile has its
    /// slot dropped, and a task woken meanwhile is queued again.
    pub fn run_end(&mut self, ready: bool) -> (r: RunEnd)
        requires
            old(self).wf(),
            flag_set(old(self).state, RUNNING),
            ready ==> !flag_set(old(self).state, CANCELLED),
            old(self).ref_count < u64::MAX,
        ensures
            final(self).wf(),
            !flag_set(final(self).state, RUNNING) || r.push_again,
            r.wake_owner == ready,
            flag_set(final(self).state, COMPLETED) == ready,
            !flag_set(final(self).state, EMPTIED),
            flag_set(final(self).state, CANCELLED) == flag_set(old(self).state, CANCELLED),
            r.drop is Some <==> flag_set(old(self).state, CANCELLED),
            r.drop is Some ==> !old(self).dropped@ && final(self).dropped@ && r.drop == Some(DataDrop::Future),
            r.drop is None ==> final(self).dropped == old(self).dropped,
            r.push_again == (flag_set(old(self).state, RUN_AGAIN) && !flag_set(old(self).state, CANCELLED) && !ready),
            final(self).ref_count == old(self).ref_count + (if r.push_again { 1int } else { 0 }),
    {
        proof { lemma_flags(self.state); }
        if self.state & CANCELLED == 0 && ready {
            proof { lemma_flags(self.state); }
            self.state = self.state | COMPLETED;
        }
        proof { lemma_flags(self.state); }
        self.state = self.state & !RUNNING;
        proof { lemma_flags(self.state); }
        let mut push_again = false;
        let mut drop = None;
        if self.state & CANCELLED != 0 {
            drop = Some(self.drop_data());
            self.dropped = Ghost(true);
        } else if self.state & RUN_AGAIN != 0 {
            self.state = self.state & !RUN_AGAIN;
            proof { lemma_flags(self.state); }
            push_again = self.schedule_run();
        } else {
            proof { lemma_flags(self.state); }
        }
        RunEnd { wake_owner: ready, drop, push_again }
    }

    /// What dropping the data slot drops in the current state.
    pub fn drop_data(&self) -> (r: DataDrop)
        ensures
            r == spec_data(self.state),
    {
        if self.state & COMPLETED == 0 {
            DataDrop::Future
        } else if self.state & EMPTIED == 0 {
            DataDrop::Result
        } else {
            DataDrop::Nothing
        }
    }

    /// The owner polls its handle. A completed task hands out its result
    /// once; before completion the owner's waker is to be stored.
    pub fn poll_handle(&mut self) -> (r: HandlePoll)
        requires
            old(self).wf(),
        ensures
            final(self).wf(),
            r == (if !flag_set(old(self).state, COMPLETED) {
                HandlePoll::Pending
            } else if !flag_set(old(self).state, EMPTIED) {
                HandlePoll::Ready
            } else {
                HandlePoll::AlreadyEmptied
            }),
            r is Ready ==> flag_set(final(self).state, EMPTIED),
            !(r is Ready) ==> final(self).state == old(self).state,
            flag_set(final(self).state, COMPLETED) == flag_set(old(self).state, COMPLETED),
            flag_set(final(self).state, CANCELLED) == flag_set(old(self).state, CANCELLED),
            flag_set(final(self).state, RUNNING) == flag_set(old(self).state, RUNNING),
            final(self).ref_count == old(self).ref_count,
            final(self).dropped == old(self).dropped,
    {
        proof { lemma_flags(self.state); }
        if self.state & COMPLETED == 0 {
            HandlePoll::Pending
        } else if self.state & EMPTIED == 0 {
            self.state = self.state | EMPTIED;
            HandlePoll::Ready
        } else {
            HandlePoll::AlreadyEmptied
        }
    }

    /// The owner drops its handle. The task is cancelled; unless it is
    /// running, its slot is dropped now (otherwise at the end of the run).
    /// The handle's reference is released; returns what to drop and whether
    /// the task is to be freed.
    pub fn cancel(&mut self) -> (r: (Option<DataDrop>, bool))
        requires
            old(self).wf(),
            !flag_set(old(self).state, CANCELLED),
            old(self).ref_count > 0,
        ensures
            final(self).wf(),
            flag_set(final(self).state, CANCELLED),
            r.0 is Some <==> !flag_set(old(self).state, RUNNING),
            r.0 is Some ==> r.0 == Some(spec_data(old(self).state)) && !old(self).dropped@ && final(self).dropped@,
            r.0 is None ==> final(self).dropped == old(self).dropped,
            r.1 == (old(self).ref_count == 1),
            final(self).ref_count == old(self).ref_count - 1,
            spec_data(final(self).state) == spec_data(old(self).state),
            flag_set(final(self).state, RUNNING) == flag_set(old(self).state, RUNNING),
    {
        proof { lemma_flags(self.state); }
        self.state = self.state | CANCELLED;
        proof { lemma_flags(self.state); }
        let mut drop = None;
        if self.state & RUNNING == 0 {
            drop = Some(self.drop_data());
            self.dropped = Ghost(true);
        }
        let free = self.dec_ref_count();
        (drop, free)
    }
}

/// The task's state after it was woken.
pub open spec fn spec_scheduled(state: u32) -> u32 {
    if !flag_set(state, COMPLETED) && !flag_set(state, CANCELLED) {
        if !flag_set(state, RUNNING) { state | RUNNING } else { state | RUN_AGAIN }
    } else {
        state
    }
}

/// A completed or cancelled task is never queued again, however often it is
/// woken.
pub proof fn lemma_finished_tasks_stay_unqueued(state: u32)
    requires
        flag_set(state, COMPLETED) || flag_set(state, CANCELLED),
    ensures
        spec_scheduled(state) == state,
        spec_scheduled(spec_scheduled(state)) == state,
{
}

/// Waking a task twice before it runs queues it only once: the second wake
/// finds it running.
pub proof fn lemma_wake_twice_queues_once(state: u32)
    requires
        !flag_set(state, COMPLETED),
        !flag_set(state, CANCELLED),
        !flag_set(state, RUNNING),
    ensures
        flag_set(spec_scheduled(state), RUNNING),
        !flag_set(spec_scheduled(state), COMPLETED) && !flag_set(spec_scheduled(state), CANCELLED),
{
    lemma_flags(state);
}

} // verus!
