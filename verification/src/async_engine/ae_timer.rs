//! Programming of timer file descriptors.

use vstd::prelude::*;

verus! {

/// A duration as whole seconds and the nanoseconds beyond them.
#[derive(Debug, Copy, Clone, PartialEq, Eq, Structural)]
pub struct TimerDuration {
    pub secs: u64,
    pub nanos: u32,
}

/// The values of a `struct itimerspec`.
#[derive(Debug, Copy, Clone, PartialEq, Eq, Structural)]
pub struct TimerSpec {
    pub value_sec: u64,
    pub value_nsec: u32,
    pub interval_sec: u64,
    pub interval_nsec: u32,
}

/// The timer setting for an initial expiration and a period: without an
/// initial expiration the timer is disarmed and the period is ignored.
pub fn program_spec(initial: Option<TimerDuration>, periodic: Option<TimerDuration>) -> (r: TimerSpec)
    ensures
        match initial {
            None => r == (TimerSpec { value_sec: 0, value_nsec: 0, interval_sec: 0, interval_nsec: 0 }),
            Some(init) => {
                &&& r.value_sec == init.secs
                &&& r.value_nsec == init.nanos
                &&& match periodic {
                    None => r.interval_sec == 0 && r.interval_nsec == 0,
                    Some(per) => r.interval_sec == per.secs && r.interval_nsec == per.nanos,
                }
            },
        },
{
    let mut spec = TimerSpec { value_sec: 0, value_nsec: 0, interval_sec: 0, interval_nsec: 0 };
    if let Some(init) = initial {
        spec.value_sec = init.secs;
        spec.value_nsec = init.nanos;
        if let Some(per) = periodic {
            spec.interval_sec = per.secs;
            spec.interval_nsec = per.nanos;
        }
    }
    spec
}

} // verus!
