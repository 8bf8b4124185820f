//! The beat of a polling loop.
//!
//! Time is a count of milliseconds on a clock that never runs backwards; the
//! caller reads the clock, waits, and reports when the tick was taken.
use vstd::prelude::*;

verus! {

/// The ticks of one loop: one every `period` milliseconds, on a fixed grid.
pub struct Ticker {
    period: u64,
    due: u64,
}

/// The ticks of one loop, as mathematical values.
pub struct TickerModel {
    /// The distance between two ticks.
    pub period: u64,
    /// The instant of the next tick.
    pub due: u64,
}

impl TickerModel {
    /// How long to wait at `now` for the next tick: nothing where it is due
    /// or overdue.
    pub open spec fn wait(self, now: u64) -> u64 {
        if now >= self.due {
            0
        } else {
            (self.due - now) as u64
        }
    }

    /// The instant of the tick after the one taken at `now`. A tick taken
    /// early or on time is followed one period after its due instant. A
    /// tick taken late is followed at the next instant of the grid after
    /// `now`: the ticks that were missed are dropped, not made up for.
    pub open spec fn next_due(self, now: u64) -> int {
        if now <= self.due {
            self.due + self.period
        } else {
            now + (self.period - (now - self.due) % (self.period as int))
        }
    }

    /// The ticker after the tick was taken at `now`; the clock ends at the
    /// largest 64-bit number, and so does the grid.
    pub open spec fn ticked(self, now: u64) -> TickerModel {
        TickerModel {
            due: if self.next_due(now) > u64::MAX {
                u64::MAX
            } else {
                self.next_due(now) as u64
            },
            ..self
        }
    }
}

impl View for Ticker {
    type V = TickerModel;

    closed spec fn view(&self) -> TickerModel {
        TickerModel { period: self.period, due: self.due }
    }
}

impl Ticker {
    #[verifier::type_invariant]
    spec fn positive_period(self) -> bool {
        self.period > 0
    }

    /// A ticker whose first tick is due at once. `None` for a period of
    /// zero, which has no grid.
    pub fn new(period: u64, now: u64) -> (ticker: Option<Ticker>)
        ensures
            period == 0 <==> ticker is None,
            ticker matches Some(t) ==> t@ == (TickerModel { period, due: now }),
    {
        if period == 0 {
            None
        } else {
            Some(Ticker { period, due: now })
        }
    }

    /// The distance between two ticks.
    pub fn period(&self) -> (period: u64)
        ensures
            period == self@.period,
            period > 0,
    {
        proof {
            use_type_invariant(self);
        }
        self.period
    }

    /// How long to wait at `now` for the next tick.
    pub fn wait(&self, now: u64) -> (millis: u64)
        ensures
            millis == self@.wait(now),
    {
        if now >= self.due {
            0
        } else {
            self.due - now
        }
    }

    /// The tick is taken at `now`; the next one is put on the grid.
    pub fn tick(&mut self, now: u64)
        ensures
            final(self)@ == old(self)@.ticked(now),
    {
        proof {
            use_type_invariant(&*self);
        }
        let due = if now <= self.due {
            self.due.saturating_add(self.period)
        } else {
            let behind: u64 = (now - self.due) % self.period;
            now.saturating_add(self.period - behind)
        };
        self.due = due;
    }
}

/// The next tick comes after the one just taken, at most one period later,
/// and lies on the grid of the ticks before it: a loop that falls behind
/// takes one tick at once and is back on the beat, without drifting and
/// without taking the missed ticks one after the other.
pub proof fn lemma_ticks_stay_on_grid(ticker: TickerModel, now: u64)
    requires
        ticker.period > 0,
        now >= ticker.due,
        now + ticker.period <= u64::MAX,
    ensures
        ticker.wait(now) == 0,
        ticker.ticked(now).due > now,
        ticker.ticked(now).due <= now + ticker.period,
        (ticker.ticked(now).due - ticker.due) % (ticker.period as int) == 0,
        now == ticker.due ==> ticker.ticked(now).due == ticker.due + ticker.period,
{
    let period = ticker.period as int;
    let late = now - ticker.due;
    if late > 0 {
        let behind = late % period;
        assert(late == period * (late / period) + behind) by (nonlinear_arith)
            requires
                period > 0,
                behind == late % period,
        ;
        assert((late - behind + period) % period == 0) by (nonlinear_arith)
            requires
                period > 0,
                late - behind == period * (late / period),
        ;
    } else {
        assert(period % period == 0) by (nonlinear_arith)
            requires
                period > 0,
        ;
    }
}

} // verus!
