//! The resilience wrapper: a call to an endpoint runs behind a circuit
//! breaker and is retried along a bounded plan.
//!
//! The call itself is made by the caller. Before each attempt the caller
//! asks [`Attempts::start_attempt`]; after it, it reports to [`succeeded`]
//! or to [`Attempts::fail`], which says whether to pause and try again.
use crate::breaker::CircuitBreaker;
use crate::retry::RetryPlan;
use vstd::prelude::*;

verus! {

/// What follows a failed attempt.
#[derive(Clone, Copy, Debug)]
pub enum Verdict {
    /// Pause for `millis` milliseconds, then ask for the next attempt.
    Retry { millis: u64 },
    /// The error goes to the caller.
    Surface,
}

/// The attempts of one logical operation.
pub struct Attempts {
    plan: RetryPlan,
    retries: usize,
    made: usize,
    due: bool,
}

/// The attempts of one logical operation, as mathematical values.
pub struct AttemptsModel {
    /// The pauses not yet taken.
    pub remaining: Seq<u64>,
    /// How many retries the plan held at the start.
    pub retries: nat,
    /// How many attempts went out so far.
    pub made: nat,
    /// Whether the next thing to happen is an attempt.
    pub due: bool,
}

impl AttemptsModel {
    /// Attempts and pauses add up: each retry was paid for with a pause of
    /// the plan, and one attempt is free.
    pub open spec fn wf(self) -> bool {
        self.made + self.remaining.len() + (if self.due {
            1nat
        } else {
            0nat
        }) <= self.retries + 1
    }

    /// The state in which an operation starts on a plan.
    pub open spec fn fresh(plan: Seq<u64>) -> AttemptsModel {
        AttemptsModel { remaining: plan, retries: plan.len(), made: 0, due: true }
    }

    /// The state after the breaker was asked: an attempt that may go out is counted.
    pub open spec fn started(self, permitted: bool) -> AttemptsModel {
        if permitted {
            AttemptsModel {
                made: if self.made + 1 > usize::MAX {
                    self.made
                } else {
                    self.made + 1
                },
                due: false,
                ..self
            }
        } else {
            self
        }
    }

    /// What follows a failed attempt: a retry wherever the error allows one
    /// and the plan still holds a pause.
    pub open spec fn verdict(self, retryable: bool) -> Verdict {
        if retryable && self.remaining.len() > 0 {
            Verdict::Retry { millis: self.remaining[0] }
        } else {
            Verdict::Surface
        }
    }

    /// The state after a failed attempt.
    pub open spec fn after_failure(self, retryable: bool) -> AttemptsModel {
        if retryable && self.remaining.len() > 0 {
            AttemptsModel { remaining: self.remaining.drop_first(), due: true, ..self }
        } else {
            self
        }
    }
}

/// The breaker after a failed attempt that came back at `now`: a recordable
/// failure is counted against the endpoint; any other says nothing of the
/// endpoint's health and leaves the breaker as it is.
pub open spec fn breaker_after_failure(
    breaker: CircuitBreaker,
    recordable: bool,
    now: u64,
) -> CircuitBreaker {
    if recordable {
        breaker.failed(now)
    } else {
        breaker
    }
}

impl View for Attempts {
    type V = AttemptsModel;

    closed spec fn view(&self) -> AttemptsModel {
        AttemptsModel {
            remaining: self.plan@,
            retries: self.retries as nat,
            made: self.made as nat,
            due: self.due,
        }
    }
}

impl Attempts {
    /// Starts an operation on `plan`.
    pub fn new(plan: RetryPlan) -> (attempts: Attempts)
        ensures
            attempts@ == AttemptsModel::fresh(plan@),
            attempts@.wf(),
    {
        let retries = plan.remaining();
        Attempts { plan, retries, made: 0, due: true }
    }

    /// How many attempts went out so far.
    pub fn made(&self) -> (n: usize)
        ensures
            n == self@.made,
    {
        self.made
    }

    /// How many retries the plan held at the start.
    pub fn retries(&self) -> (n: usize)
        ensures
            n == self@.retries,
    {
        self.retries
    }

    /// Asks the breaker whether an attempt may go out at `now`. Where it may
    /// not, the operation fails at once, without a call to the endpoint.
    pub fn start_attempt(&mut self, breaker: &mut CircuitBreaker, now: u64) -> (permitted: bool)
        ensures
            permitted == old(breaker).permits(now),
            *final(breaker) == old(breaker).asked(now),
            final(self)@ == old(self)@.started(permitted),
            old(self)@.wf() && old(self)@.due ==> final(self)@.wf(),
    {
        let permitted = breaker.is_call_permitted(now);
        if permitted {
            self.made = self.made.saturating_add(1);
            self.due = false;
        }
        permitted
    }

    /// Reports a failed attempt that came back at `now`, with what the error
    /// is: whether the breaker counts it, and whether it may be retried.
    pub fn fail(
        &mut self,
        breaker: &mut CircuitBreaker,
        retryable: bool,
        recordable: bool,
        now: u64,
    ) -> (verdict: Verdict)
        ensures
            *final(breaker) == breaker_after_failure(*old(breaker), recordable, now),
            verdict == old(self)@.verdict(retryable),
            final(self)@ == old(self)@.after_failure(retryable),
            old(self)@.wf() && !old(self)@.due ==> final(self)@.wf(),
    {
        if recordable {
            breaker.on_error(now);
        }
        if retryable {
            match self.plan.next_delay() {
                Some(millis) => {
                    self.due = true;
                    Verdict::Retry { millis }
                },
                None => Verdict::Surface,
            }
        } else {
            Verdict::Surface
        }
    }
}

/// Reports a successful attempt.
pub fn succeeded(breaker: &mut CircuitBreaker)
    ensures
        *final(breaker) == old(breaker).succeeded(),
{
    breaker.on_success();
}

/// An operation makes at most one attempt more than its plan holds retries.
pub proof fn lemma_retry_bound(attempts: AttemptsModel)
    requires
        attempts.wf(),
    ensures
        attempts.made <= 1 + attempts.retries,
{
}

/// Once the plan is used up, a failure goes to the caller whatever it is.
pub proof fn lemma_surfaces_when_exhausted(attempts: AttemptsModel, retryable: bool)
    requires
        attempts.remaining.len() == 0,
    ensures
        attempts.verdict(retryable) == Verdict::Surface,
        attempts.after_failure(retryable) == attempts,
{
}

/// An error that may not be retried goes to the caller at once, and leaves
/// the plan as it is.
pub proof fn lemma_surfaces_when_permanent(attempts: AttemptsModel)
    ensures
        attempts.verdict(false) == Verdict::Surface,
        attempts.after_failure(false) == attempts,
{
}

/// A failure that is not recorded leaves the breaker untouched: its state,
/// and with it the count of failures in a row, stay as they were.
pub proof fn lemma_unrecorded_failure_keeps_breaker(breaker: CircuitBreaker, now: u64)
    ensures
        breaker_after_failure(breaker, false, now) == breaker,
        breaker_after_failure(breaker, true, now) == breaker.failed(now),
{
}

} // verus!
