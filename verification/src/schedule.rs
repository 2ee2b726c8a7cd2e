//! The exponential backoff schedule that paces the retries.
//!
//! The schedule itself is the `backoff` crate's `ExponentialBackoff`, driven
//! by the system clock. This module holds one, fixes the elapsed-time limit
//! it is made with, and sees to what the engine relies on: a delay that the
//! schedule hands out never exceeds that limit.

use backoff::backoff::Backoff;
use backoff::exponential::ExponentialBackoff;
use backoff::SystemClock;
use std::time::Duration;
use vstd::prelude::*;

verus! {

/// The interval around which a fresh schedule draws its first delay, in
/// nanoseconds: half a second.
pub const INITIAL_INTERVAL_NANOS: u64 = 500_000_000;

#[verifier::external_type_specification]
#[verifier::external_body]
#[verifier::reject_recursive_types(C)]
pub struct ExExponentialBackoff<C>(ExponentialBackoff<C>);

#[verifier::external_type_specification]
#[verifier::external_body]
pub struct ExSystemClock(SystemClock);

/// The elapsed-time limit of a backoff, in nanoseconds: the value of its
/// `max_elapsed_time`, `None` where it has no limit.
pub uninterp spec fn elapsed_limit(backoff: ExponentialBackoff<SystemClock>) -> Option<nat>;

/// The interval of a backoff around which it draws its next delay, in
/// nanoseconds: the value of its `current_interval`.
pub uninterp spec fn current_interval_of(backoff: ExponentialBackoff<SystemClock>) -> nat;

/// The interval of a backoff from which it starts, in nanoseconds: the
/// value of its `initial_interval`.
pub uninterp spec fn initial_interval_of(backoff: ExponentialBackoff<SystemClock>) -> nat;

/// Makes an `ExponentialBackoff` with the crate's default intervals,
/// multiplier and randomization (`Default::default`) and the given
/// elapsed-time limit. Trusted: that `max_elapsed_time` then holds exactly
/// that limit, and that the default initial interval, at which the current
/// one starts too, is 500 milliseconds.
#[verifier::external_body]
fn backoff_with_limit(limit_nanos: u64) -> (backoff: ExponentialBackoff<SystemClock>)
    ensures
        elapsed_limit(backoff) == Some(limit_nanos as nat),
        initial_interval_of(backoff) == 500_000_000,
        current_interval_of(backoff) == 500_000_000,
{
    ExponentialBackoff {
        max_elapsed_time: Some(Duration::from_nanos(limit_nanos)),
        ..Default::default()
    }
}

/// `Backoff::reset` of `ExponentialBackoff`: the current interval goes back
/// to the initial one and the elapsed time is measured from now. Trusted:
/// the first of these, and that the limit and the initial interval stay as
/// they were. Of the clock nothing is said.
#[verifier::external_body]
fn backoff_reset(backoff: &mut ExponentialBackoff<SystemClock>)
    ensures
        elapsed_limit(*final(backoff)) == elapsed_limit(*old(backoff)),
        initial_interval_of(*final(backoff)) == initial_interval_of(*old(backoff)),
        current_interval_of(*final(backoff)) == initial_interval_of(*old(backoff)),
{
    backoff.reset();
}

/// `Backoff::next_backoff` of `ExponentialBackoff`, the delay in
/// nanoseconds. The outcome depends on the clock and on a random number, so
/// nothing is said of it. Trusted: that the limit and the initial interval
/// stay as they were.
#[verifier::external_body]
fn backoff_next(backoff: &mut ExponentialBackoff<SystemClock>) -> (answer: Option<u128>)
    ensures
        elapsed_limit(*final(backoff)) == elapsed_limit(*old(backoff)),
        initial_interval_of(*final(backoff)) == initial_interval_of(*old(backoff)),
{
    backoff.next_backoff().map(|d| d.as_nanos())
}

/// What a backoff's answer comes to under a limit: the delay it names where
/// that is within the limit, and exhaustion where it names none or one
/// beyond the limit.
pub open spec fn within_limit(answer: Option<u128>, limit_nanos: u64) -> Option<u64> {
    match answer {
        Some(nanos) => if nanos <= limit_nanos {
            Some(nanos as u64)
        } else {
            None
        },
        None => None,
    }
}

/// Holds a backoff's answer against the limit.
pub fn delay_within_limit(answer: Option<u128>, limit_nanos: u64) -> (delay: Option<u64>)
    ensures
        delay == within_limit(answer, limit_nanos),
{
    match answer {
        Some(nanos) => {
            if nanos <= limit_nanos as u128 {
                Some(nanos as u64)
            } else {
                None
            }
        },
        None => None,
    }
}

/// An exponential backoff schedule with an elapsed-time limit.
pub struct BackoffSchedule {
    inner: ExponentialBackoff<SystemClock>,
    limit_nanos: u64,
}

impl BackoffSchedule {
    /// The schedule's backoff has the limit that the schedule was made with,
    /// and starts from the default initial interval.
    pub closed spec fn wf(&self) -> bool {
        &&& elapsed_limit(self.inner) == Some(self.limit_nanos as nat)
        &&& initial_interval_of(self.inner) == INITIAL_INTERVAL_NANOS
    }

    /// The limit on the elapsed time, in nanoseconds, that the schedule was
    /// made with.
    pub closed spec fn max_elapsed(&self) -> nat {
        self.limit_nanos as nat
    }

    /// The interval, in nanoseconds, around which the next delay is drawn.
    pub closed spec fn current_interval(&self) -> nat {
        current_interval_of(self.inner)
    }

    /// A schedule with the default intervals and growth, limited to
    /// `limit_nanos` nanoseconds of elapsed time. Its clock starts now.
    pub fn with_max_elapsed(limit_nanos: u64) -> (schedule: Self)
        ensures
            schedule.wf(),
            schedule.max_elapsed() == limit_nanos,
            schedule.current_interval() == INITIAL_INTERVAL_NANOS,
    {
        BackoffSchedule { inner: backoff_with_limit(limit_nanos), limit_nanos }
    }

    /// Starts the schedule over: the next delay is drawn around the initial
    /// interval again, and the elapsed time counts from now.
    pub fn restart(&mut self)
        requires
            old(self).wf(),
        ensures
            final(self).wf(),
            final(self).max_elapsed() == old(self).max_elapsed(),
            final(self).current_interval() == INITIAL_INTERVAL_NANOS,
    {
        backoff_reset(&mut self.inner);
    }

    /// The next delay in nanoseconds, or `None` once the elapsed-time limit
    /// is exhausted. Which of the two comes back depends on the clock and on
    /// the schedule's random jitter; a delay that comes back is never longer
    /// than the limit.
    pub fn next_delay(&mut self) -> (delay: Option<u64>)
        requires
            old(self).wf(),
        ensures
            final(self).wf(),
            final(self).max_elapsed() == old(self).max_elapsed(),
            delay matches Some(nanos) ==> nanos <= old(self).max_elapsed(),
    {
        let answer = backoff_next(&mut self.inner);
        delay_within_limit(answer, self.limit_nanos)
    }
}

} // verus!
