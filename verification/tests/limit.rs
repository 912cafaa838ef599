use resend_rs::limit::{Admission, Quota, RateLimiter, DEFAULT_BURST, DEFAULT_PERIOD_NS};
use resend_rs::ConfigError;

#[test]
fn default_quota_is_nine_per_period() {
    let q = Quota::default_quota();
    assert_eq!(q.burst, DEFAULT_BURST);
    assert_eq!(q.burst, 9);
    assert_eq!(q.period_ns, DEFAULT_PERIOD_NS);
    assert_eq!(q.period_ns, 1_100_000_000);
}

#[test]
fn zero_rate_is_fatal() {
    assert_eq!(Quota::from_rate(0), Err(ConfigError::InvalidRateLimit));
}

#[test]
fn rate_override_sets_burst() {
    let q = Quota::from_rate(3).unwrap();
    assert_eq!(q.burst, 3);
    assert_eq!(q.period_ns, DEFAULT_PERIOD_NS);
}

#[test]
fn burst_one_delays_each_following_call_by_a_period() {
    // Three back-to-back calls at t=0 under burst=1, period=1s: the second
    // and third are each delayed at least one refill period behind the
    // previous admitted call.
    let q = Quota { burst: 1, period_ns: 1_000_000_000 };
    let mut rl = RateLimiter::new(q);
    assert_eq!(rl.check(0), Admission::Admit);
    let second = rl.check(0);
    assert_eq!(second, Admission::RetryAt(1_000_000_000));
    let third = rl.check(0);
    assert_eq!(third, Admission::RetryAt(1_000_000_000));
    // The delayed callers come back at the earliest conforming instant.
    assert_eq!(rl.check(1_000_000_000), Admission::Admit);
    assert_eq!(rl.check(1_000_000_000), Admission::RetryAt(2_000_000_000));
    assert_eq!(rl.check(2_000_000_000), Admission::Admit);
}

#[test]
fn burst_is_admitted_at_once_and_the_next_call_is_delayed() {
    let q = Quota::default_quota();
    let mut rl = RateLimiter::new(q);
    for _ in 0..9 {
        assert_eq!(rl.check(0), Admission::Admit);
    }
    match rl.check(0) {
        Admission::Admit => panic!("the tenth call must be delayed"),
        Admission::RetryAt(t) => assert_eq!(t, 1_100_000_000),
    }
}

#[test]
fn no_window_of_one_period_admits_more_than_burst() {
    // Drive a dense schedule through a small quota and count admissions in
    // every window of one period.
    let q = Quota { burst: 3, period_ns: 1_000 };
    let mut rl = RateLimiter::new(q);
    let mut admitted: Vec<u64> = Vec::new();
    let mut now: u64 = 0;
    for step in 0..200u64 {
        now += step % 7 * 100;
        if let Admission::Admit = rl.check(now) {
            admitted.push(now);
        }
    }
    for (i, &t) in admitted.iter().enumerate() {
        let in_window = admitted[i..].iter().take_while(|&&u| u < t + 1_000).count();
        assert!(in_window <= 3, "window starting at {t} holds {in_window} admissions");
    }
}

#[test]
fn interleaved_callers_draw_from_one_budget() {
    // Two callers sharing one limiter cannot together exceed the burst:
    // alternating calls at one instant admit only `burst` in total.
    let q = Quota { burst: 4, period_ns: 1_000_000 };
    let mut rl = RateLimiter::new(q);
    let mut admitted = 0;
    for _ in 0..4 {
        // caller A then caller B
        if let Admission::Admit = rl.check(0) {
            admitted += 1;
        }
        if let Admission::Admit = rl.check(0) {
            admitted += 1;
        }
    }
    assert_eq!(admitted, 4);
}
