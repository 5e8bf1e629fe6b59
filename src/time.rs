//! Timeout schedule. Times are nanoseconds of a monotonic clock; durations
//! are nanoseconds.
use vstd::prelude::*;

verus! {

/// A timeout: either one that fires `duration` after it was last armed, or
/// one that never fires.
#[derive(Debug, Clone, Copy, PartialEq, Eq, Structural)]
pub enum Timeout {
    /// Timeout armed at `deadline - duration`.
    Duration { duration: u64, deadline: u64 },
    /// Timeout that never occurs.
    Never,
}

/// The timeout after a `reset` at time `now`: the clock restarts from `now`
/// with the duration the timeout was created with.
pub open spec fn after_reset(t: Timeout, now: u64) -> Timeout {
    match t {
        Timeout::Duration { duration, deadline: _ } => Timeout::Duration {
            duration,
            deadline: (now + duration) as u64,
        },
        Timeout::Never => Timeout::Never,
    }
}

/// Whether `t` has fired at time `now`.
pub open spec fn fired(t: Timeout, now: u64) -> bool {
    match t {
        Timeout::Duration { duration: _, deadline } => now >= deadline,
        Timeout::Never => false,
    }
}

/// Whether re-arming `t` at `now` stays within the clock's range.
pub open spec fn can_rearm(t: Timeout, now: u64) -> bool {
    match t {
        Timeout::Duration { duration, deadline: _ } => now + duration <= u64::MAX,
        Timeout::Never => true,
    }
}

/// A timeout created at `now` with duration `d` has not fired before
/// `now + d` and has fired from then on. A `reset` at `later` restarts the
/// clock: the new deadline is `later + d`, whatever the old one was. A
/// timeout that never occurs never fires.
pub proof fn lemma_timeout_schedule(d: u64, now: u64, later: u64, t: u64)
    requires
        now + d <= u64::MAX,
        later + d <= u64::MAX,
    ensures
        fired(Timeout::Duration { duration: d, deadline: (now + d) as u64 }, t) <==> t >= now + d,
        after_reset(Timeout::Duration { duration: d, deadline: (now + d) as u64 }, later)
            == (Timeout::Duration { duration: d, deadline: (later + d) as u64 }),
        fired(after_reset(Timeout::Duration { duration: d, deadline: (now + d) as u64 }, later), t)
            <==> t >= later + d,
        !fired(Timeout::Never, t),
        after_reset(Timeout::Never, later) == Timeout::Never,
{
}

impl Timeout {
    /// Timeout that fires `duration` after `now`.
    pub fn new(duration: u64, now: u64) -> (r: Self)
        requires
            now + duration <= u64::MAX,
        ensures
            r == (Timeout::Duration { duration, deadline: (now + duration) as u64 }),
    {
        Timeout::Duration { duration, deadline: now + duration }
    }

    /// Timeout that never occurs.
    pub fn never() -> (r: Self)
        ensures
            r == Timeout::Never,
    {
        Timeout::Never
    }

    /// Restarts the clock at `now` with the duration the timeout was created
    /// with; does nothing to a timeout that never occurs.
    pub fn reset(&mut self, now: u64)
        requires
            can_rearm(*old(self), now),
        ensures
            *final(self) == after_reset(*old(self), now),
    {
        match self {
            Timeout::Duration { duration, deadline } => {
                *deadline = now + *duration;
            },
            Timeout::Never => {},
        }
    }

    /// A timeout that never occurs counts as already decided from the start.
    pub fn is_terminated(&self) -> (r: bool)
        ensures
            r == (*self is Never),
    {
        match self {
            Timeout::Duration { .. } => false,
            Timeout::Never => true,
        }
    }

    /// Whether the timeout has fired at time `now`.
    pub fn is_elapsed(&self, now: u64) -> (r: bool)
        ensures
            r == fired(*self, now),
    {
        match self {
            Timeout::Duration { deadline, .. } => now >= *deadline,
            Timeout::Never => false,
        }
    }
}

} // verus!
