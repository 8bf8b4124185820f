use grelsolar::breaker::{BreakerState, CircuitBreaker};
use grelsolar::resilience::{succeeded, Attempts, Verdict};
use grelsolar::retry::{retry_strategy, RetryPlan};

fn is_closed(breaker: &CircuitBreaker, count: u32) -> bool {
    matches!(breaker.state, BreakerState::Closed { failures } if failures == count)
}

fn is_open(breaker: &CircuitBreaker, instant: u64) -> bool {
    matches!(breaker.state, BreakerState::Open { until } if until == instant)
}

#[test]
fn the_breaker_opens_at_the_threshold_and_probes_after_the_cooldown() {
    let mut breaker = CircuitBreaker::new(3, 5000);
    assert!(is_closed(&breaker, 0));
    for _ in 0..10 {
        assert!(breaker.is_call_permitted(0));
        breaker.on_success();
        assert!(is_closed(&breaker, 0));
    }
    for i in 0..2 {
        assert!(breaker.is_call_permitted(100));
        breaker.on_error(100);
        assert!(is_closed(&breaker, i + 1));
    }
    assert!(breaker.is_call_permitted(100));
    breaker.on_error(100);
    assert!(is_open(&breaker, 5100));
    for _ in 0..10 {
        assert!(!breaker.is_call_permitted(200));
    }
    assert!(!breaker.is_call_permitted(2100));
    assert!(!breaker.is_call_permitted(5100));
    assert!(is_open(&breaker, 5100));
    assert!(breaker.is_call_permitted(5101));
    assert!(matches!(breaker.state, BreakerState::HalfOpen));
    assert!(breaker.is_call_permitted(5101));

    breaker.on_error(6000);
    assert!(is_open(&breaker, 11000));
    assert!(!breaker.is_call_permitted(11000));
    assert!(breaker.is_call_permitted(11001));
    breaker.on_success();
    assert!(is_closed(&breaker, 0));
    assert!(breaker.is_call_permitted(11001));
}

#[test]
fn a_success_ends_a_run_of_failures() {
    let mut breaker = CircuitBreaker::new(3, 10);
    breaker.on_error(0);
    breaker.on_error(0);
    breaker.on_success();
    assert!(is_closed(&breaker, 0));
    breaker.on_error(0);
    breaker.on_error(0);
    assert!(is_closed(&breaker, 2));
    breaker.on_error(7);
    assert!(is_open(&breaker, 17));
    breaker.on_success();
    breaker.on_error(9);
    assert!(is_open(&breaker, 17), "what comes in while the breaker is open changes nothing");
}

#[test]
fn the_breaker_holds_at_the_end_of_the_clock() {
    let mut breaker = CircuitBreaker::new(1, u64::MAX);
    breaker.on_error(5);
    assert!(is_open(&breaker, u64::MAX));
    assert!(!breaker.is_call_permitted(u64::MAX));
    let mut hasty = CircuitBreaker::new(0, 0);
    hasty.on_error(5);
    assert!(is_open(&hasty, 5));
    assert!(!hasty.is_call_permitted(5));
    assert!(hasty.is_call_permitted(6));
}

#[test]
fn the_plan_has_three_jittered_pauses() {
    for _ in 0..200 {
        let mut plan = retry_strategy();
        assert_eq!(plan.remaining(), 3);
        let first = plan.next_delay().unwrap();
        let second = plan.next_delay().unwrap();
        let third = plan.next_delay().unwrap();
        assert!(first <= 10, "{first}");
        assert!(second <= 100, "{second}");
        assert!(third <= 1000, "{third}");
        assert_eq!(plan.remaining(), 0);
        assert_eq!(plan.next_delay(), None);
    }
    let thirds: Vec<u64> = (0..50)
        .map(|_| {
            let mut plan = retry_strategy();
            plan.next_delay();
            plan.next_delay();
            plan.next_delay().unwrap()
        })
        .collect();
    assert!(thirds.iter().any(|pause| *pause != thirds[0]), "the pauses are drawn by chance");
}

#[test]
fn a_plan_is_taken_in_order() {
    let mut plan = RetryPlan::new(vec![3, 1, 2]);
    assert_eq!(plan.remaining(), 3);
    assert_eq!(plan.next_delay(), Some(3));
    assert_eq!(plan.next_delay(), Some(1));
    assert_eq!(plan.remaining(), 1);
    assert_eq!(plan.next_delay(), Some(2));
    assert_eq!(plan.next_delay(), None);
    assert_eq!(plan.next_delay(), None);
}

#[test]
fn attempts_are_one_more_than_the_pauses() {
    let mut breaker = CircuitBreaker::new(100, 1000);
    let mut attempts = Attempts::new(RetryPlan::new(vec![10, 20, 30]));
    assert_eq!(attempts.retries(), 3);
    assert_eq!(attempts.made(), 0);
    let mut pauses = Vec::new();
    loop {
        assert!(attempts.start_attempt(&mut breaker, 0));
        match attempts.fail(&mut breaker, true, true, 0) {
            Verdict::Retry { millis } => pauses.push(millis),
            Verdict::Surface => break,
        }
    }
    assert_eq!(pauses, vec![10, 20, 30]);
    assert_eq!(attempts.made(), 4);
    assert!(is_closed(&breaker, 4));

    let mut attempts = Attempts::new(RetryPlan::new(vec![10, 20, 30]));
    assert!(attempts.start_attempt(&mut breaker, 0));
    assert!(matches!(attempts.fail(&mut breaker, false, false, 0), Verdict::Surface));
    assert_eq!(attempts.made(), 1);
    assert!(is_closed(&breaker, 4), "an error that is not recorded leaves the breaker as it is");

    let mut open = CircuitBreaker::new(1, 1000);
    open.on_error(0);
    let mut attempts = Attempts::new(RetryPlan::new(vec![10]));
    assert!(!attempts.start_attempt(&mut open, 1000));
    assert_eq!(attempts.made(), 0);
    assert!(attempts.start_attempt(&mut open, 1001));
    assert_eq!(attempts.made(), 1);
    succeeded(&mut open);
    assert!(is_closed(&open, 0));
}

/// A small generator of numbers that look random and are the same in every run.
struct Dice(u64);

impl Dice {
    fn roll(&mut self, sides: u64) -> u64 {
        self.0 = self.0.wrapping_mul(6364136223846793005).wrapping_add(1442695040888963407);
        (self.0 >> 33) % sides
    }
}

#[test]
fn the_breaker_decides_as_the_failsafe_state_machine_does() {
    for (threshold, cooldown) in [(1u32, 50u64), (3, 1000), (5, 60000), (2, 1)] {
        failsafe::clock::freeze(|time| {
            let policy = failsafe::failure_policy::consecutive_failures(
                threshold,
                failsafe::backoff::constant(std::time::Duration::from_millis(cooldown)),
            );
            let theirs = failsafe::Config::new().failure_policy(policy).build();
            let mut ours = CircuitBreaker::new(threshold, cooldown);
            let mut dice = Dice(u64::from(threshold) * 7919 + cooldown);
            let mut now: u64 = 0;
            let mut rejected = 0;
            let mut permitted = 0;
            for _ in 0..5000 {
                let step = match dice.roll(4) {
                    0 => 0,
                    1 => dice.roll(3),
                    2 => dice.roll(cooldown + 2),
                    _ => cooldown / 2,
                };
                time.advance(std::time::Duration::from_millis(step));
                now += step;
                match dice.roll(5) {
                    0 | 1 => {
                        let expected = theirs.is_call_permitted();
                        assert_eq!(ours.is_call_permitted(now), expected, "at {now}");
                        if expected {
                            permitted += 1;
                        } else {
                            rejected += 1;
                        }
                    }
                    2 => {
                        theirs.on_success();
                        ours.on_success();
                    }
                    _ => {
                        theirs.on_error();
                        ours.on_error(now);
                    }
                }
            }
            assert!(permitted > 100 && rejected > 100, "{permitted} {rejected}");
        });
    }
}

#[test]
fn the_pauses_stay_below_the_exponential_backoff() {
    let ceilings: Vec<u64> = tokio_retry::strategy::ExponentialBackoff::from_millis(10)
        .take(3)
        .map(|pause| pause.as_millis() as u64)
        .collect();
    assert_eq!(ceilings, vec![10, 100, 1000]);
    for _ in 0..100 {
        let mut plan = retry_strategy();
        for ceiling in ceilings.iter() {
            assert!(plan.next_delay().unwrap() <= *ceiling);
        }
    }
}
