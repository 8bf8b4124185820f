//! The retry plan: the finite sequence of pauses that one logical operation
//! may take between its attempts.
use tokio_retry::strategy::{jitter, ExponentialBackoff};
use vstd::prelude::*;

verus! {

/// The pauses still open to an operation, in milliseconds, next one first.
pub struct RetryPlan {
    delays: Vec<u64>,
}

impl View for RetryPlan {
    type V = Seq<u64>;

    closed spec fn view(&self) -> Seq<u64> {
        self.delays@
    }
}

/// The longest that pause number `i` of an exponential plan can be: the base
/// for the first, and `base` times the one before for each later pause, held
/// at the largest 64-bit number.
pub open spec fn backoff_ceiling(base: u64, i: nat) -> nat
    decreases i,
{
    if i == 0 {
        base as nat
    } else {
        let grown = backoff_ceiling(base, (i - 1) as nat) * (base as nat);
        if grown > u64::MAX {
            u64::MAX as nat
        } else {
            grown
        }
    }
}

/// `tokio_retry`'s `ExponentialBackoff::from_millis(base_millis)`, each pause
/// passed through its `jitter`, cut off after `count` pauses and read in
/// whole milliseconds. The backoff never ends by itself, so `count` pauses
/// come out; `jitter` scales a pause by a random factor of at least zero and
/// below one, so none is longer than the pause it was drawn from. Which
/// lengths come out is left to chance.
#[verifier::external_body]
fn jittered_backoff(base_millis: u64, count: usize) -> (delays: Vec<u64>)
    requires
        base_millis <= 1000,
        count <= 3,
    ensures
        delays@.len() == count,
        forall|i: int| 0 <= i < count ==> delays@[i] <= backoff_ceiling(base_millis, i as nat),
{
    ExponentialBackoff::from_millis(base_millis)
        .map(jitter)
        .take(count)
        .map(|pause| pause.as_millis() as u64)
        .collect()
}

impl RetryPlan {
    /// A plan with the given pauses, taken in order.
    pub fn new(delays: Vec<u64>) -> (plan: RetryPlan)
        ensures
            plan@ == delays@,
    {
        RetryPlan { delays }
    }

    /// How many retries the plan still allows.
    pub fn remaining(&self) -> (n: usize)
        ensures
            n == self@.len(),
    {
        self.delays.len()
    }

    /// Takes the next pause out of the plan; `None` when the plan is used up.
    pub fn next_delay(&mut self) -> (delay: Option<u64>)
        ensures
            old(self)@.len() == 0 ==> delay is None && final(self)@ == old(self)@,
            old(self)@.len() > 0 ==> delay == Some(old(self)@[0]) && final(self)@ == old(
                self,
            )@.drop_first(),
    {
        if self.delays.len() == 0 {
            None
        } else {
            let delay = self.delays.remove(0);
            proof {
                assert(self.delays@ =~= old(self).delays@.drop_first());
            }
            Some(delay)
        }
    }
}

/// What every plan of the clients looks like: three retries, after pauses
/// of at most 10, 100 and 1000 milliseconds.
pub open spec fn standard_plan(plan: Seq<u64>) -> bool {
    &&& plan.len() == 3
    &&& plan[0] <= 10
    &&& plan[1] <= 100
    &&& plan[2] <= 1000
}

/// The plan of both clients: three retries, after pauses of at most 10, 100
/// and 1000 milliseconds. The pauses grow tenfold before a random part of
/// each is taken.
pub fn retry_strategy() -> (plan: RetryPlan)
    ensures
        standard_plan(plan@),
{
    let delays = jittered_backoff(10, 3);
    proof {
        reveal_with_fuel(backoff_ceiling, 4);
        assert(backoff_ceiling(10, 0) == 10);
        assert(backoff_ceiling(10, 1) == 100);
        assert(backoff_ceiling(10, 2) == 1000);
    }
    RetryPlan::new(delays)
}

} // verus!
