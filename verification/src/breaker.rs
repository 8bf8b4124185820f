//! The circuit breaker: a guard that stops calls to a failing endpoint for a
//! cooldown period.
//!
//! Time is a count of milliseconds on a clock that never runs backwards; the
//! caller reads the clock and hands the reading in.
use vstd::prelude::*;

verus! {

/// What the breaker currently does with calls.
#[derive(Clone, Copy, Debug)]
pub enum BreakerState {
    /// Calls pass; `failures` recorded failures have come in a row.
    Closed { failures: u32 },
    /// Calls are rejected as long as the clock has not passed `until`.
    Open { until: u64 },
    /// The cooldown is over: calls pass as probes, and the next recorded
    /// outcome decides between `Closed` and `Open`.
    HalfOpen,
}

/// A circuit breaker that opens after `threshold` recorded failures in a row
/// and stays open for `cooldown` milliseconds.
#[derive(Clone, Copy, Debug)]
pub struct CircuitBreaker {
    pub state: BreakerState,
    pub threshold: u32,
    pub cooldown: u64,
}

/// `now + cooldown`, held at the largest instant the clock can show.
pub open spec fn deadline(now: u64, cooldown: u64) -> u64 {
    if now + cooldown > u64::MAX {
        u64::MAX
    } else {
        (now + cooldown) as u64
    }
}

impl CircuitBreaker {
    /// Whether a call asked for at `now` may go out.
    pub open spec fn permits(self, now: u64) -> bool {
        match self.state {
            BreakerState::Closed { .. } => true,
            BreakerState::HalfOpen => true,
            BreakerState::Open { until } => now > until,
        }
    }

    /// The breaker after it was asked at `now`: an open breaker whose
    /// cooldown is over becomes half open, nothing else changes.
    pub open spec fn asked(self, now: u64) -> CircuitBreaker {
        match self.state {
            BreakerState::Open { until } if now > until => CircuitBreaker {
                state: BreakerState::HalfOpen,
                ..self
            },
            _ => self,
        }
    }

    /// The breaker after a success was recorded: closed with no failures,
    /// unless it is open, which only the clock ends.
    pub open spec fn succeeded(self) -> CircuitBreaker {
        match self.state {
            BreakerState::Open { .. } => self,
            _ => CircuitBreaker { state: BreakerState::Closed { failures: 0 }, ..self },
        }
    }

    /// The breaker after a failure was recorded at `now`. A closed breaker
    /// counts it and opens when the count reaches the threshold; a half-open
    /// one opens again with a fresh cooldown; an open one stays as it is.
    pub open spec fn failed(self, now: u64) -> CircuitBreaker {
        match self.state {
            BreakerState::Closed { failures } => if failures + 1 >= self.threshold {
                CircuitBreaker {
                    state: BreakerState::Open { until: deadline(now, self.cooldown) },
                    ..self
                }
            } else {
                CircuitBreaker {
                    state: BreakerState::Closed { failures: (failures + 1) as u32 },
                    ..self
                }
            },
            BreakerState::HalfOpen => CircuitBreaker {
                state: BreakerState::Open { until: deadline(now, self.cooldown) },
                ..self
            },
            BreakerState::Open { .. } => self,
        }
    }

    /// The breaker after one failure was recorded at each instant of `times`,
    /// in order.
    pub open spec fn failed_at_each(self, times: Seq<u64>) -> CircuitBreaker
        decreases times.len(),
    {
        if times.len() == 0 {
            self
        } else {
            self.failed_at_each(times.drop_last()).failed(times.last())
        }
    }

    /// A closed breaker without recorded failures.
    pub fn new(threshold: u32, cooldown: u64) -> (breaker: CircuitBreaker)
        ensures
            breaker == (CircuitBreaker {
                state: BreakerState::Closed { failures: 0 },
                threshold,
                cooldown,
            }),
    {
        CircuitBreaker { state: BreakerState::Closed { failures: 0 }, threshold, cooldown }
    }

    /// Asks for permission to make a call at `now`.
    pub fn is_call_permitted(&mut self, now: u64) -> (permitted: bool)
        ensures
            permitted == old(self).permits(now),
            *final(self) == old(self).asked(now),
    {
        match self.state {
            BreakerState::Closed { .. } => true,
            BreakerState::HalfOpen => true,
            BreakerState::Open { until } => {
                if now > until {
                    self.state = BreakerState::HalfOpen;
                    true
                } else {
                    false
                }
            },
        }
    }

    /// Records a successful call.
    pub fn on_success(&mut self)
        ensures
            *final(self) == old(self).succeeded(),
    {
        match self.state {
            BreakerState::Open { .. } => {},
            _ => {
                self.state = BreakerState::Closed { failures: 0 };
            },
        }
    }

    /// Records a failed call that came back at `now`.
    pub fn on_error(&mut self, now: u64)
        ensures
            *final(self) == old(self).failed(now),
    {
        match self.state {
            BreakerState::Closed { failures } => {
                if self.threshold == 0 || failures >= self.threshold - 1 {
                    self.state = BreakerState::Open { until: now.saturating_add(self.cooldown) };
                } else {
                    self.state = BreakerState::Closed { failures: failures + 1 };
                }
            },
            BreakerState::HalfOpen => {
                self.state = BreakerState::Open { until: now.saturating_add(self.cooldown) };
            },
            BreakerState::Open { .. } => {},
        }
    }
}

/// Fewer failures in a row than the threshold leave a closed breaker closed,
/// with each of them counted.
pub proof fn lemma_stays_closed_below_threshold(breaker: CircuitBreaker, times: Seq<u64>)
    requires
        breaker.state == (BreakerState::Closed { failures: 0 }),
        times.len() < breaker.threshold,
    ensures
        breaker.failed_at_each(times) == (CircuitBreaker {
            state: BreakerState::Closed { failures: times.len() as u32 },
            ..breaker
        }),
    decreases times.len(),
{
    if times.len() > 0 {
        lemma_stays_closed_below_threshold(breaker, times.drop_last());
    }
}

/// As many recorded failures in a row as the threshold open a closed breaker.
/// From then on every call is rejected until the clock has passed the
/// cooldown that began with the last of them; the first call asked for after
/// that passes as a probe, and leaves the breaker half open.
pub proof fn lemma_opens_at_threshold(breaker: CircuitBreaker, times: Seq<u64>, now: u64)
    requires
        breaker.state == (BreakerState::Closed { failures: 0 }),
        breaker.threshold >= 1,
        times.len() == breaker.threshold,
    ensures
        breaker.failed_at_each(times).state == (BreakerState::Open {
            until: deadline(times.last(), breaker.cooldown),
        }),
        now <= deadline(times.last(), breaker.cooldown) ==> {
            &&& !breaker.failed_at_each(times).permits(now)
            &&& breaker.failed_at_each(times).asked(now) == breaker.failed_at_each(times)
        },
        now > deadline(times.last(), breaker.cooldown) ==> {
            &&& breaker.failed_at_each(times).permits(now)
            &&& breaker.failed_at_each(times).asked(now).state == BreakerState::HalfOpen
        },
{
    lemma_stays_closed_below_threshold(breaker, times.drop_last());
}

/// A probe decides: its success closes a half-open breaker, its recorded
/// failure at `now` opens it again for a whole cooldown counted from `now`.
pub proof fn lemma_probe_decides(breaker: CircuitBreaker, now: u64)
    requires
        breaker.state == BreakerState::HalfOpen,
    ensures
        breaker.succeeded().state == (BreakerState::Closed { failures: 0 }),
        breaker.failed(now).state == (BreakerState::Open {
            until: deadline(now, breaker.cooldown),
        }),
{
}

} // verus!
