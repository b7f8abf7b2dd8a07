//! The single-threaded async engine: phased dispatch of runnable tasks, the
//! reference-counted state of spawned tasks, readiness of file descriptors,
//! timeouts, yields and timers.

pub mod ae_fd;
pub mod ae_queue;
pub mod ae_task;
pub mod ae_timer;

use vstd::prelude::*;

verus! {

/// Errors of the async engine. Operating-system errors carry their errno.
#[derive(Debug, Copy, Clone, PartialEq, Eq, Structural)]
pub enum AsyncError {
    WheelError,
    EventLoopError,
    TimerReadError(i32),
    SetTimer(i32),
    CreateTimer(i32),
}

/// The phases of one dispatch iteration, in the order in which they run.
#[derive(Debug, Copy, Clone, PartialEq, Eq, Structural)]
pub enum Phase {
    EventHandling,
    Layout,
    PostLayout,
    Present,
}

pub const NUM_PHASES: usize = 4;

pub open spec fn spec_phase_index(p: Phase) -> int {
    match p {
        Phase::EventHandling => 0,
        Phase::Layout => 1,
        Phase::PostLayout => 2,
        Phase::Present => 3,
    }
}

impl Phase {
    /// The position of the phase in a dispatch iteration.
    pub fn index(self) -> (r: usize)
        ensures
            r == spec_phase_index(self),
            r < NUM_PHASES,
    {
        match self {
            Phase::EventHandling => 0,
            Phase::Layout => 1,
            Phase::PostLayout => 2,
            Phase::Present => 3,
        }
    }

    /// The phase at a position of a dispatch iteration.
    pub fn from_index(i: usize) -> (r: Phase)
        requires
            i < NUM_PHASES,
        ensures
            spec_phase_index(r) == i,
    {
        if i == 0 {
            Phase::EventHandling
        } else if i == 1 {
            Phase::Layout
        } else if i == 2 {
            Phase::PostLayout
        } else {
            Phase::Present
        }
    }
}

/// State of a timeout future and of its entry in the timer wheel.
pub struct Timeout<W> {
    pub expired: bool,
    pub waker: Option<W>,
}

impl<W> Timeout<W> {
    pub fn new() -> (r: Self)
        ensures
            !r.expired,
            r.waker is None,
    {
        Timeout { expired: false, waker: None }
    }

    /// Polls the timeout: it is ready once it has expired; otherwise the
    /// waker of the polling task is stored, replacing an earlier one.
    pub fn poll(&mut self, waker: W) -> (ready: bool)
        ensures
            ready == old(self).expired,
            *final(self) == spec_timeout_polled(*old(self), waker),
    {
        if self.expired {
            true
        } else {
            self.waker = Some(waker);
            false
        }
    }

    /// The wheel reports that the timeout expired: it is marked expired and
    /// the stored waker, if any, is handed out to be woken.
    pub fn dispatch(&mut self) -> (r: Option<W>)
        ensures
            *final(self) == spec_timeout_dispatched(*old(self)),
            r == old(self).waker,
    {
        self.expired = true;
        self.waker.take()
    }
}

/// The state of a timeout after the wheel reported its expiry.
pub open spec fn spec_timeout_dispatched<W>(t: Timeout<W>) -> Timeout<W> {
    Timeout { expired: true, waker: None }
}

/// The state of a timeout after it was polled with a waker.
pub open spec fn spec_timeout_polled<W>(t: Timeout<W>, waker: W) -> Timeout<W> {
    if t.expired {
        t
    } else {
        Timeout { expired: false, waker: Some(waker) }
    }
}

/// Once the wheel has reported a timeout, every later poll is ready, however
/// often it is polled.
pub proof fn lemma_timeout_ready_after_dispatch<W>(t: Timeout<W>, w1: W, w2: W)
    ensures
        spec_timeout_dispatched(t).expired,
        spec_timeout_polled(spec_timeout_dispatched(t), w1).expired,
        spec_timeout_polled(spec_timeout_polled(spec_timeout_dispatched(t), w1), w2).expired,
{
}

/// A timeout that has not expired stays pending when polled, and the latest
/// waker is the one that the expiry wakes.
pub proof fn lemma_timeout_wakes_latest_waker<W>(t: Timeout<W>, w1: W, w2: W)
    requires
        !t.expired,
    ensures
        !spec_timeout_polled(t, w1).expired,
        spec_timeout_polled(spec_timeout_polled(t, w1), w2).waker == Some(w2),
{
}

/// A yield point remembers the dispatch iteration in which it was created.
pub struct Yield {
    pub iteration: u64,
}

impl Yield {
    /// A yield is ready once a later dispatch iteration has started.
    pub fn is_ready(&self, current_iteration: u64) -> (r: bool)
        ensures
            r == (current_iteration > self.iteration),
    {
        current_iteration > self.iteration
    }
}

} // verus!
