//! Readiness of file descriptors: which events to ask the event loop for,
//! what a poll of a readable/writable future does and how an event from the
//! loop is distributed to the waiting tasks.

use vstd::prelude::*;

verus! {

pub const EPOLLIN: u32 = 0x001;
pub const EPOLLOUT: u32 = 0x004;
pub const EPOLLERR: u32 = 0x008;
pub const EPOLLHUP: u32 = 0x010;

/// The outcome of waiting for a file descriptor.
#[derive(Copy, Clone, Debug, Eq, PartialEq, Structural)]
pub enum FdStatus {
    Normal,
    Failed,
}

proof fn lemma_interest_masks()
    by (bit_vector)
    ensures
        0u32 | EPOLLOUT == 4u32,
        0u32 | EPOLLIN == 1u32,
        4u32 | EPOLLIN == 5u32,
        forall|e: u32| (e == 0 || e == 1 || e == 4 || e == 5) ==> (
            (e & EPOLLIN != 0 <==> (e == 1 || e == 5))
            && (e & EPOLLOUT != 0 <==> (e == 4 || e == 5))
            && e & !(EPOLLIN | EPOLLOUT) == 0),
{
}

/// The event mask that the loop watches for the registered directions.
pub fn interest_events(read_registered: bool, write_registered: bool) -> (r: u32)
    ensures
        r == (if write_registered { EPOLLOUT } else { 0 }) + (if read_registered { EPOLLIN } else { 0 }),
        r & EPOLLIN != 0 <==> read_registered,
        r & EPOLLOUT != 0 <==> write_registered,
        r & !(EPOLLIN | EPOLLOUT) == 0,
{
    let mut events: u32 = 0;
    if write_registered {
        events = events | EPOLLOUT;
    }
    if read_registered {
        events = events | EPOLLIN;
    }
    proof {
        lemma_interest_masks();
    }
    events
}

/// What a poll of a readable or writable future does.
#[derive(Copy, Clone, Debug, Eq, PartialEq, Structural)]
pub enum FdPoll {
    /// The future was woken with this status.
    Ready(FdStatus),
    /// Register the direction with the loop (it was not registered), then
    /// queue the waker.
    RegisterAndWait,
    /// Queue the waker.
    Wait,
}

pub fn poll_decision(woken: Option<FdStatus>, registered: bool) -> (r: FdPoll)
    ensures
        r == (match woken {
            Some(s) => FdPoll::Ready(s),
            None => if registered { FdPoll::Wait } else { FdPoll::RegisterAndWait },
        }),
{
    match woken {
        Some(s) => FdPoll::Ready(s),
        None => {
            if registered {
                FdPoll::Wait
            } else {
                FdPoll::RegisterAndWait
            }
        },
    }
}

/// How an event of the loop is handled.
#[derive(Copy, Clone, Debug, Eq, PartialEq, Structural)]
pub struct FdDispatch {
    /// The status handed to every woken task.
    pub status: FdStatus,
    /// Remove the descriptor from the loop: it failed.
    pub remove: bool,
    /// Wake every waiting reader.
    pub wake_readers: bool,
    /// Wake every waiting writer.
    pub wake_writers: bool,
    /// Nobody waited: unregister both directions.
    pub unregister: bool,
}

pub open spec fn spec_failed(events: u32) -> bool {
    events & (EPOLLERR | EPOLLHUP) != 0
}

/// Handles the events reported for a descriptor. An error or hang-up fails
/// the descriptor and wakes everyone; otherwise readers are woken by input
/// readiness and writers by output readiness. If no task was woken and the
/// descriptor did not fail, the loop stops watching it.
pub fn dispatch_decision(events: u32, have_readers: bool, have_writers: bool) -> (r: FdDispatch)
    ensures
        r.status == (if spec_failed(events) { FdStatus::Failed } else { FdStatus::Normal }),
        r.remove == spec_failed(events),
        r.wake_readers == (events & EPOLLIN != 0 || spec_failed(events)),
        r.wake_writers == (events & EPOLLOUT != 0 || spec_failed(events)),
        r.unregister == (!spec_failed(events)
            && !(r.wake_readers && have_readers)
            && !(r.wake_writers && have_writers)),
{
    let mut status = FdStatus::Normal;
    let mut remove = false;
    if events & (EPOLLERR | EPOLLHUP) != 0 {
        status = FdStatus::Failed;
        remove = true;
    }
    let mut woke_any = false;
    let wake_readers = events & EPOLLIN != 0 || status == FdStatus::Failed;
    if wake_readers {
        woke_any = woke_any || have_readers;
    }
    let wake_writers = events & EPOLLOUT != 0 || status == FdStatus::Failed;
    if wake_writers {
        woke_any = woke_any || have_writers;
    }
    let unregister = !woke_any && status == FdStatus::Normal;
    FdDispatch { status, remove, wake_readers, wake_writers, unregister }
}

/// The shared registration of a descriptor: the number of handles, the
/// registered directions.
#[derive(Copy, Clone, Debug, PartialEq, Eq, Structural)]
pub struct AsyncFdData {
    pub ref_count: u64,
    pub read_registered: bool,
    pub write_registered: bool,
}

impl AsyncFdData {
    pub fn new() -> (r: Self)
        ensures
            r.ref_count == 1,
            !r.read_registered,
            !r.write_registered,
    {
        AsyncFdData { ref_count: 1, read_registered: false, write_registered: false }
    }

    /// Another handle to the descriptor was created.
    pub fn acquire(&mut self)
        requires
            old(self).ref_count < u64::MAX,
        ensures
            final(self).ref_count == old(self).ref_count + 1,
            final(self).read_registered == old(self).read_registered,
            final(self).write_registered == old(self).write_registered,
    {
        self.ref_count = self.ref_count + 1;
    }

    /// A handle was dropped. Returns whether it was the last, in which case
    /// the descriptor leaves the engine and the loop.
    pub fn release(&mut self) -> (last: bool)
        requires
            old(self).ref_count > 0,
        ensures
            final(self).ref_count == old(self).ref_count - 1,
            last == (old(self).ref_count == 1),
            final(self).read_registered == old(self).read_registered,
            final(self).write_registered == old(self).write_registered,
    {
        self.ref_count = self.ref_count - 1;
        self.ref_count == 0
    }

    /// Records the registration that a poll asks for and returns the new
    /// interest mask, or `None` when nothing changed.
    pub fn register(&mut self, read: bool) -> (r: Option<u32>)
        ensures
            read ==> final(self).read_registered && final(self).write_registered == old(self).write_registered,
            !read ==> final(self).write_registered && final(self).read_registered == old(self).read_registered,
            final(self).ref_count == old(self).ref_count,
            r is None <==> (if read { old(self).read_registered } else { old(self).write_registered }),
            r matches Some(ev) ==> (ev & EPOLLIN != 0 <==> final(self).read_registered)
                && (ev & EPOLLOUT != 0 <==> final(self).write_registered),
    {
        if read {
            if self.read_registered {
                return None;
            }
            self.read_registered = true;
        } else {
            if self.write_registered {
                return None;
            }
            self.write_registered = true;
        }
        Some(interest_events(self.read_registered, self.write_registered))
    }

    /// Hands an event of the loop to the tasks waiting on the descriptor.
    /// `removal` is the outcome of removing a failed descriptor from the
    /// loop (asked for where the events report an error or a hang-up, see
    /// [`dispatch_decision`]), none where it did not fail. A failed removal
    /// is the result, and nobody is woken. Otherwise the readers (on input
    /// readiness or failure) and the writers (on output readiness or
    /// failure) are taken from their lists, to be woken with the status, in
    /// that order; where nobody was woken and the descriptor did not fail,
    /// both directions are unregistered and the new (empty) interest mask
    /// is returned, for the loop to apply.
    pub fn dispatch_waiters<W, E>(
        &mut self,
        readers: &mut Vec<W>,
        writers: &mut Vec<W>,
        events: u32,
        removal: Option<Result<(), E>>,
    ) -> (r: Result<(FdStatus, Vec<W>, Option<u32>), E>)
        requires
            removal is Some <==> spec_failed(events),
        ensures
            final(self).ref_count == old(self).ref_count,
            removal matches Some(Err(e)) ==> (r matches Err(x) && x == e && *final(self) == *old(self) && final(readers)@
                == old(readers)@ && final(writers)@ == old(writers)@),
            !(removal matches Some(Err(_))) ==> (r matches Ok((status, woken, interest)) && {
                let wake_r = events & EPOLLIN != 0 || spec_failed(events);
                let wake_w = events & EPOLLOUT != 0 || spec_failed(events);
                let none_woken = !(wake_r && old(readers)@.len() > 0) && !(wake_w && old(writers)@.len() > 0);
                &&& status == (if spec_failed(events) { FdStatus::Failed } else { FdStatus::Normal })
                &&& woken@ == (if wake_r { old(readers)@ } else { Seq::empty() }) + (if wake_w {
                    old(writers)@
                } else {
                    Seq::empty()
                })
                &&& final(readers)@ == (if wake_r { Seq::empty() } else { old(readers)@ })
                &&& final(writers)@ == (if wake_w { Seq::empty() } else { old(writers)@ })
                &&& if !spec_failed(events) && none_woken {
                    &&& interest == Some(0u32)
                    &&& !final(self).read_registered
                    &&& !final(self).write_registered
                } else {
                    &&& interest is None
                    &&& final(self).read_registered == old(self).read_registered
                    &&& final(self).write_registered == old(self).write_registered
                }
            }),
    {
        if let Some(Err(e)) = removal {
            return Err(e);
        }
        let d = dispatch_decision(events, readers.len() > 0, writers.len() > 0);
        let mut woken: Vec<W> = Vec::new();
        if d.wake_readers {
            woken.append(readers);
        }
        if d.wake_writers {
            woken.append(writers);
        }
        let interest = if d.unregister {
            Some(self.unregister())
        } else {
            None
        };
        Ok((d.status, woken, interest))
    }

    /// No task waited when the descriptor became ready: both directions are
    /// unregistered and the (empty) interest mask is returned.
    pub fn unregister(&mut self) -> (r: u32)
        ensures
            !final(self).read_registered,
            !final(self).write_registered,
            final(self).ref_count == old(self).ref_count,
            r == 0,
    {
        self.read_registered = false;
        self.write_registered = false;
        interest_events(false, false)
    }
}

} // verus!
