//! The retry engine: a state machine that a caller drives through one fetch.
//!
//! The caller makes the requests and the pauses. Before each request it calls
//! [`RetryEngine::begin`], after it [`RetryEngine::settle`] with the reply,
//! and it does what the returned [`Step`] says: stop with the result, or
//! pause and go round again.

use crate::error::MyError;
use crate::fetcher::{classify, outcome_of, Cause, FetchOutcome, Reply};
use crate::schedule::BackoffSchedule;
use vstd::prelude::*;

verus! {

/// The time budget of one fetch, in nanoseconds: two seconds. Once that much
/// time has passed since the first attempt began, no further retry is
/// scheduled.
pub const MAX_ELAPSED_NANOS: u64 = 2_000_000_000;

/// Where a fetch stands.
#[derive(Debug, Clone, Copy, PartialEq, Eq, Structural)]
pub enum Phase {
    /// Nothing has been attempted yet.
    Idle,
    /// A request is under way.
    Attempting,
    /// The last attempt failed transiently and a retry is due after a pause.
    AwaitingBackoff,
    /// Over: an attempt succeeded.
    Succeeded,
    /// Over: an attempt failed permanently.
    PermanentlyFailed,
    /// Over: the last attempt failed transiently and the budget is spent.
    TransientlyExhausted,
}

/// What the caller is to do after an attempt.
#[derive(Debug, PartialEq, Eq)]
pub enum Step<R> {
    /// The fetch is over, with this result.
    Finish(Result<R, MyError>),
    /// Pause for this many nanoseconds, then attempt again.
    RetryAfter { nanos: u64 },
}

/// What an engine is, to a contract: how many attempts have begun and where
/// the fetch stands.
pub struct RetryView {
    pub attempts: int,
    pub phase: Phase,
}

/// The state of one fetch.
pub struct RetryEngine {
    attempts: i32,
    phase: Phase,
    schedule: BackoffSchedule,
}

impl View for RetryEngine {
    type V = RetryView;

    closed spec fn view(&self) -> RetryView {
        RetryView { attempts: self.attempts as int, phase: self.phase }
    }
}

/// The phase is one in which the fetch is over.
pub open spec fn terminal(phase: Phase) -> bool {
    phase == Phase::Succeeded || phase == Phase::PermanentlyFailed || phase
        == Phase::TransientlyExhausted
}

/// What follows an attempt, the `attempts`-th, with the given outcome. A
/// success and a permanent failure end the fetch whatever the schedule
/// holds. A transient failure leads to a pause of `delay` where the schedule
/// gave one, and ends the fetch where it gave none.
pub open spec fn step_after<R>(outcome: FetchOutcome<R>, attempts: i32, delay: Option<u64>) -> Step<
    R,
> {
    match outcome {
        FetchOutcome::Success(response) => Step::Finish(Ok(response)),
        FetchOutcome::PermanentFailure(cause) => Step::Finish(
            Err(MyError::PermanentReqwestError { source: cause }),
        ),
        FetchOutcome::TransientFailure(cause) => match delay {
            Some(nanos) => Step::RetryAfter { nanos },
            None => Step::Finish(Err(MyError::TransientReqwestError { tries: attempts, source: cause })),
        },
    }
}

/// The phase that an attempt with the given outcome leads to.
pub open spec fn phase_after<R>(outcome: FetchOutcome<R>, delay: Option<u64>) -> Phase {
    match outcome {
        FetchOutcome::Success(_) => Phase::Succeeded,
        FetchOutcome::PermanentFailure(_) => Phase::PermanentlyFailed,
        FetchOutcome::TransientFailure(_) => match delay {
            Some(_) => Phase::AwaitingBackoff,
            None => Phase::TransientlyExhausted,
        },
    }
}

/// Decides what follows an attempt, from its outcome, the number of attempts
/// so far and the schedule's answer. The answer matters only after a
/// transient failure.
pub fn resolve<R>(outcome: FetchOutcome<R>, attempts: i32, delay: Option<u64>) -> (next: (
    Step<R>,
    Phase,
))
    ensures
        next.0 == step_after(outcome, attempts, delay),
        next.1 == phase_after(outcome, delay),
{
    match outcome {
        FetchOutcome::Success(response) => (Step::Finish(Ok(response)), Phase::Succeeded),
        FetchOutcome::PermanentFailure(cause) => (
            Step::Finish(Err(MyError::PermanentReqwestError { source: cause })),
            Phase::PermanentlyFailed,
        ),
        FetchOutcome::TransientFailure(cause) => match delay {
            Some(nanos) => (Step::RetryAfter { nanos }, Phase::AwaitingBackoff),
            None => (
                Step::Finish(Err(MyError::TransientReqwestError { tries: attempts, source: cause })),
                Phase::TransientlyExhausted,
            ),
        },
    }
}

impl RetryEngine {
    /// The engine's invariant: its schedule carries the two-second budget,
    /// no attempt has begun exactly while the fetch is idle, and from then on
    /// at least one has.
    pub closed spec fn wf(&self) -> bool {
        &&& self.schedule.wf()
        &&& self.schedule.max_elapsed() == MAX_ELAPSED_NANOS
        &&& self.phase == Phase::Idle ==> self.attempts == 0
        &&& self.phase != Phase::Idle ==> self.attempts >= 1
    }

    /// An engine for one fetch: idle, with no attempt made and a fresh
    /// schedule that allows two seconds.
    pub fn new() -> (engine: Self)
        ensures
            engine.wf(),
            engine@.attempts == 0,
            engine@.phase == Phase::Idle,
    {
        RetryEngine {
            attempts: 0,
            phase: Phase::Idle,
            schedule: BackoffSchedule::with_max_elapsed(MAX_ELAPSED_NANOS),
        }
    }

    /// The number of attempts that have begun.
    pub fn attempts(&self) -> (attempts: i32)
        ensures
            attempts == self@.attempts,
    {
        self.attempts
    }

    /// Where the fetch stands.
    pub fn phase(&self) -> (phase: Phase)
        ensures
            phase == self@.phase,
    {
        self.phase
    }

    /// Records that an attempt begins: the first one, or a retry after a
    /// pause. The first one starts the schedule's clock.
    pub fn begin(&mut self)
        requires
            old(self).wf(),
            old(self)@.phase == Phase::Idle || old(self)@.phase == Phase::AwaitingBackoff,
            old(self)@.attempts < i32::MAX,
        ensures
            final(self).wf(),
            final(self)@.phase == Phase::Attempting,
            final(self)@.attempts == old(self)@.attempts + 1,
    {
        if self.phase == Phase::Idle {
            self.schedule.restart();
        }
        self.attempts = self.attempts + 1;
        self.phase = Phase::Attempting;
    }

    /// Takes the reply to the attempt under way and decides what follows.
    ///
    /// A success ends the fetch with the response, a permanent failure ends
    /// it with its cause, and neither consults the schedule. After a
    /// transient failure the schedule decides, by the clock: either the
    /// fetch ends with the number of attempts made and the last cause, or a
    /// retry follows after a pause, which is never longer than the budget.
    pub fn settle<R>(&mut self, reply: Reply<R>) -> (step: Step<R>)
        requires
            old(self).wf(),
            old(self)@.phase == Phase::Attempting,
        ensures
            final(self).wf(),
            final(self)@.attempts == old(self)@.attempts,
            final(self)@.attempts >= 1,
            match outcome_of(reply) {
                FetchOutcome::TransientFailure(cause) => {
                    ||| {
                        &&& step == Step::<R>::Finish(
                            Err(
                                MyError::TransientReqwestError {
                                    tries: old(self)@.attempts as i32,
                                    source: cause,
                                },
                            ),
                        )
                        &&& final(self)@.phase == Phase::TransientlyExhausted
                    }
                    ||| {
                        &&& step matches Step::RetryAfter { nanos }
                        &&& nanos <= MAX_ELAPSED_NANOS
                        &&& final(self)@.phase == Phase::AwaitingBackoff
                    }
                },
                outcome => {
                    &&& step == step_after(outcome, old(self)@.attempts as i32, None)
                    &&& final(self)@.phase == phase_after(outcome, None)
                },
            },
    {
        let outcome = classify(reply);
        let delay = match &outcome {
            FetchOutcome::TransientFailure(_) => self.schedule.next_delay(),
            _ => None,
        };
        let (step, phase) = resolve(outcome, self.attempts, delay);
        self.phase = phase;
        step
    }
}

/// Whenever a fetch is past its idle phase, under way, pausing or over with
/// any result, at least one attempt has been made.
pub proof fn lemma_at_least_one_attempt(engine: RetryEngine)
    requires
        engine.wf(),
        engine@.phase != Phase::Idle,
    ensures
        engine@.attempts >= 1,
{
}

} // verus!
