use samba::{Admission, Error, LeakyBucket, PressureLevel, Rate, Ratio};

const SECOND: u64 = 1_000_000_000;

fn ratio(num: i64, den: u32) -> Ratio {
    Ratio::new(num, den)
}

fn bucket(quota: Ratio, rph: u32, jitter: Ratio, burst: u32) -> LeakyBucket {
    LeakyBucket::new(quota, Ratio::whole(rph), 50, 25, jitter, burst).unwrap()
}

fn as_f64(rate: Rate) -> f64 {
    rate.num as f64 / rate.den as f64
}

fn refusal(r: Result<LeakyBucket, Error>) -> String {
    match r {
        Ok(_) => panic!("accepted"),
        Err(e) => e.message(),
    }
}

#[test]
fn pressure_levels() {
    // Headroom 100% -> Healthy
    assert_eq!(
        PressureLevel::from_headroom(ratio(100, 1), ratio(50, 1), ratio(25, 1)),
        PressureLevel::Healthy
    );
    // 40% -> Warn (below 50% warn threshold)
    assert_eq!(
        PressureLevel::from_headroom(ratio(40, 1), ratio(50, 1), ratio(25, 1)),
        PressureLevel::Warn
    );
    // 20% -> Critical (below 25%)
    assert_eq!(
        PressureLevel::from_headroom(ratio(20, 1), ratio(50, 1), ratio(25, 1)),
        PressureLevel::Critical
    );
    // 5% -> Emergency (below 10%)
    assert_eq!(
        PressureLevel::from_headroom(ratio(5, 1), ratio(50, 1), ratio(25, 1)),
        PressureLevel::Emergency
    );
}

#[test]
fn pressure_thresholds_belong_to_the_milder_level() {
    let at = |num: i64, den: u32| {
        PressureLevel::from_headroom(ratio(num, den), ratio(50, 1), ratio(25, 1))
    };
    assert_eq!(at(50, 1), PressureLevel::Healthy);
    assert_eq!(at(4999, 100), PressureLevel::Warn);
    assert_eq!(at(25, 1), PressureLevel::Warn);
    assert_eq!(at(2499, 100), PressureLevel::Critical);
    assert_eq!(at(10, 1), PressureLevel::Critical);
    assert_eq!(at(999, 100), PressureLevel::Emergency);
    // Not a number and plus infinity compare below nothing.
    assert_eq!(at(0, 0), PressureLevel::Healthy);
    assert_eq!(at(1, 0), PressureLevel::Healthy);
    assert_eq!(at(-1, 0), PressureLevel::Emergency);
}

#[test]
fn pressure_multipliers_decreasing() {
    assert!(PressureLevel::Warn
        .pace_multiplier()
        .is_less_than(&PressureLevel::Healthy.pace_multiplier()));
    assert!(PressureLevel::Critical
        .pace_multiplier()
        .is_less_than(&PressureLevel::Warn.pace_multiplier()));
    assert!(PressureLevel::Emergency
        .pace_multiplier()
        .is_less_than(&PressureLevel::Critical.pace_multiplier()));
}

#[test]
fn pressure_multiplier_values() {
    assert_eq!(PressureLevel::Healthy.pace_multiplier(), ratio(1, 1));
    assert_eq!(PressureLevel::Warn.pace_multiplier(), ratio(1, 2));
    assert_eq!(PressureLevel::Critical.pace_multiplier(), ratio(1, 4));
    assert_eq!(PressureLevel::Emergency.pace_multiplier(), ratio(1, 8));
}

#[test]
fn rejects_zero_quota_pct() {
    assert!(LeakyBucket::new(ratio(0, 1), ratio(5000, 1), 50, 25, ratio(3, 10), 1).is_err());
}

#[test]
fn rejects_quota_pct_above_one() {
    assert!(LeakyBucket::new(ratio(3, 2), ratio(5000, 1), 50, 25, ratio(3, 10), 1).is_err());
}

#[test]
fn rejects_zero_initial_rph() {
    assert!(LeakyBucket::new(ratio(1, 10), ratio(0, 1), 50, 25, ratio(3, 10), 1).is_err());
}

#[test]
fn rejects_inverted_pressure_thresholds() {
    // critical > warn is nonsense
    assert!(LeakyBucket::new(ratio(1, 10), ratio(5000, 1), 25, 50, ratio(3, 10), 1).is_err());
}

#[test]
fn refusals_name_the_argument() {
    let ok_rph = ratio(5000, 1);
    let ok_jitter = ratio(3, 10);
    for quota in [ratio(0, 1), ratio(-1, 2), ratio(3, 2), ratio(0, 0), ratio(1, 0)] {
        assert_eq!(
            refusal(LeakyBucket::new(quota, ok_rph, 50, 25, ok_jitter, 1)),
            "config error: quota_pct must be in (0, 1]"
        );
    }
    for rph in [ratio(0, 1), ratio(-5, 1), ratio(1, 0), ratio(0, 0)] {
        assert_eq!(
            refusal(LeakyBucket::new(ratio(1, 10), rph, 50, 25, ok_jitter, 1)),
            "config error: initial_rph must be > 0 and finite"
        );
    }
    for jitter in [ratio(-1, 10), ratio(11, 10), ratio(0, 0)] {
        assert_eq!(
            refusal(LeakyBucket::new(ratio(1, 10), ok_rph, 50, 25, jitter, 1)),
            "config error: jitter_pct must be in [0, 1]"
        );
    }
    assert_eq!(
        refusal(LeakyBucket::new(ratio(1, 10), ok_rph, 50, 25, ok_jitter, 0)),
        "config error: burst must be >= 1"
    );
    assert_eq!(
        refusal(LeakyBucket::new(ratio(1, 10), ok_rph, 25, 50, ok_jitter, 1)),
        "config error: pressure_critical_pct must be <= pressure_warn_pct"
    );
    // The bounds themselves are fine.
    assert!(LeakyBucket::new(ratio(1, 1), ok_rph, 50, 50, ratio(1, 1), 1).is_ok());
    assert!(LeakyBucket::new(ratio(1, 1), ok_rph, 0, 0, ratio(0, 1), 1).is_ok());
}

#[test]
fn accepts_fractional_rpm() {
    // 1% of 5000/hr -> 0.833 rpm
    let bucket = LeakyBucket::new(ratio(1, 100), ratio(5000, 1), 50, 25, ratio(3, 10), 1).unwrap();
    let rpm = as_f64(bucket.target_rpm());
    assert!((rpm - 0.833).abs() < 0.01);
    assert_eq!(bucket.target_rpm(), Rate { num: 5000, den: 6000 });
}

#[test]
fn record_observed_limit_updates_rpm() {
    // Start: 1% of 5000/hr -> 0.833 rpm
    let mut bucket =
        LeakyBucket::new(ratio(1, 100), ratio(5000, 1), 50, 25, ratio(0, 1), 1).unwrap();
    let initial = as_f64(bucket.target_rpm());
    assert!((initial - 0.833).abs() < 0.01);
    // GitHub bumps to 15000 (e.g., upgraded plan)
    bucket.record_observed_limit(15000);
    let updated = as_f64(bucket.target_rpm());
    // 1% of 15000 = 150/hr = 2.5 rpm
    assert!((updated - 2.5).abs() < 0.01);
    assert_eq!(bucket.target_rpm(), Rate { num: 15000, den: 6000 });
}

#[test]
fn record_observed_limit_zero_is_noop() {
    let mut bucket =
        LeakyBucket::new(ratio(1, 10), ratio(5000, 1), 50, 25, ratio(0, 1), 1).unwrap();
    let before = as_f64(bucket.target_rpm());
    bucket.record_observed_limit(0); // defensive
    let after = as_f64(bucket.target_rpm());
    assert!((before - after).abs() < 1e-9);
}

#[test]
fn observed_limit_replaces_a_fractional_start() {
    // Half a request per hour, then a whole limit.
    let mut bucket =
        LeakyBucket::new(ratio(1, 2), ratio(1, 2), 50, 25, ratio(0, 1), 1).unwrap();
    assert_eq!(bucket.target_rpm(), Rate { num: 1, den: 240 });
    bucket.record_observed_limit(60);
    assert_eq!(as_f64(bucket.target_rpm()), 0.5);
    bucket.record_observed_limit(60);
    assert_eq!(as_f64(bucket.target_rpm()), 0.5);
}

#[test]
fn periods_of_the_documented_shares() {
    // (share of 5000 per hour, period in tenths of a second)
    for (percent, period) in [(1i64, 720u128), (5, 144), (10, 72)] {
        let mut b = bucket(ratio(percent, 100), 5000, ratio(0, 1), 1);
        assert_eq!(b.acquire(0), Admission::Admitted);
        assert_eq!(b.acquire(0), Admission::Wait(period * 100_000_000));
    }
    // 1% of an app token's 15000 per hour: every 24 seconds.
    let mut b = bucket(ratio(1, 100), 15000, ratio(0, 1), 1);
    assert_eq!(b.acquire(0), Admission::Admitted);
    assert_eq!(b.acquire(0), Admission::Wait(24 * SECOND as u128));
}

#[test]
fn token_comes_exactly_after_the_wait() {
    let mut b = bucket(ratio(1, 100), 5000, ratio(0, 1), 1);
    assert_eq!(b.acquire(5 * SECOND), Admission::Admitted);
    assert_eq!(b.acquire(77 * SECOND - 1), Admission::Wait(1));
    assert_eq!(b.acquire(77 * SECOND), Admission::Admitted);
    // Asking often earns nothing extra.
    for s in 78..149u64 {
        assert_eq!(b.acquire(s * SECOND), Admission::Wait((149 - s) as u128 * SECOND as u128));
    }
    assert_eq!(b.acquire(149 * SECOND), Admission::Admitted);
}

#[test]
fn an_instant_is_credited_once() {
    let mut b = bucket(ratio(1, 100), 5000, ratio(0, 1), 1);
    assert_eq!(b.acquire(0), Admission::Admitted);
    for _ in 0..10 {
        b.replenish(40 * SECOND);
        assert_eq!(b.acquire(40 * SECOND), Admission::Wait(32 * SECOND as u128));
    }
    assert_eq!(b.acquire(72 * SECOND), Admission::Admitted);
}

#[test]
fn clock_that_goes_back_earns_nothing() {
    let mut b = bucket(ratio(1, 100), 5000, ratio(0, 1), 1);
    assert_eq!(b.acquire(100 * SECOND), Admission::Admitted);
    assert_eq!(b.acquire(0), Admission::Wait(72 * SECOND as u128));
    assert_eq!(b.acquire(172 * SECOND), Admission::Admitted);
}

#[test]
fn eight_per_minute_is_never_exceeded() {
    // 480 per hour is 8 per minute; ask every 100 ms for ten minutes.
    let mut b = bucket(ratio(1, 1), 480, ratio(3, 10), 1);
    let mut admitted = 0u32;
    for tick in 0..=6000u64 {
        if b.acquire(tick * 100_000_000) == Admission::Admitted {
            admitted += 1;
        }
    }
    // The burst of one, and eight per minute (one each 7.5 s).
    assert_eq!(admitted, 81);
}

#[test]
fn burst_admits_that_many_at_once() {
    let mut b = bucket(ratio(1, 1), 3600, ratio(0, 1), 3);
    for _ in 0..3 {
        assert_eq!(b.acquire(0), Admission::Admitted);
    }
    assert_eq!(b.acquire(0), Admission::Wait(SECOND as u128));
    // A long silence fills the bucket to its burst, and no further.
    for _ in 0..3 {
        assert_eq!(b.acquire(1_000_000 * SECOND), Admission::Admitted);
    }
    assert_eq!(b.acquire(1_000_000 * SECOND), Admission::Wait(SECOND as u128));
}

#[test]
fn silence_of_any_length_fills_to_the_burst() {
    let mut b = LeakyBucket::new(
        ratio(4_294_967_295, 4_294_967_295),
        ratio(i64::MAX, 4_294_967_295),
        50,
        25,
        ratio(0, 1),
        2,
    )
    .unwrap();
    b.record_observed_limit(u32::MAX);
    assert_eq!(b.acquire(0), Admission::Admitted);
    assert_eq!(b.acquire(0), Admission::Admitted);
    assert_eq!(b.acquire(u64::MAX), Admission::Admitted);
    assert_eq!(b.acquire(u64::MAX), Admission::Admitted);
    assert!(matches!(b.acquire(u64::MAX), Admission::Wait(_)));
}

#[test]
fn headroom_shrinks_the_effective_rate() {
    let mut b = bucket(ratio(1, 100), 15000, ratio(0, 1), 1);
    assert_eq!(b.pressure(), PressureLevel::Healthy);
    assert_eq!(as_f64(b.effective_rpm()), 2.5);
    b.record_headroom(7499, 15000);
    assert_eq!(b.pressure(), PressureLevel::Warn);
    assert_eq!(as_f64(b.effective_rpm()), 1.25);
    b.record_headroom(3749, 15000);
    assert_eq!(b.pressure(), PressureLevel::Critical);
    assert_eq!(as_f64(b.effective_rpm()), 0.625);
    b.record_headroom(1499, 15000);
    assert_eq!(b.pressure(), PressureLevel::Emergency);
    assert_eq!(as_f64(b.effective_rpm()), 0.3125);
    assert_eq!(as_f64(b.target_rpm()), 2.5);
    b.record_headroom(7500, 15000);
    assert_eq!(b.pressure(), PressureLevel::Healthy);
    b.record_headroom(0, 0);
    assert_eq!(b.pressure(), PressureLevel::Healthy);
    b.record_headroom(0, 1);
    assert_eq!(b.pressure(), PressureLevel::Emergency);
}

#[test]
fn pressure_stretches_the_wait() {
    let mut b = bucket(ratio(1, 100), 5000, ratio(0, 1), 1);
    assert_eq!(b.acquire(0), Admission::Admitted);
    b.record_headroom(2000, 5000);
    assert_eq!(b.acquire(0), Admission::Wait(144 * SECOND as u128));
    b.record_headroom(1000, 5000);
    assert_eq!(b.acquire(0), Admission::Wait(288 * SECOND as u128));
    b.record_headroom(100, 5000);
    assert_eq!(b.acquire(0), Admission::Wait(576 * SECOND as u128));
}

#[test]
fn jitter_varies_within_its_spread() {
    let nominal = 72 * SECOND as u128;
    let spread = nominal * 3 / 10;
    let mut b = bucket(ratio(1, 100), 5000, ratio(3, 10), 1);
    assert_eq!(b.acquire(0), Admission::Admitted);
    let mut waits: Vec<u128> = Vec::new();
    for _ in 0..64 {
        match b.acquire(0) {
            Admission::Wait(nanos) => waits.push(nanos),
            Admission::Admitted => panic!("no token is due"),
        }
    }
    assert!(waits.iter().all(|w| nominal - spread <= *w && *w <= nominal + spread));
    assert!(waits.iter().any(|w| *w != waits[0]));
    assert!(waits.iter().any(|w| *w < nominal));
    assert!(waits.iter().any(|w| *w > nominal));
}

#[test]
fn jittered_wait_moves_by_the_offset() {
    let mut b = bucket(ratio(1, 100), 5000, ratio(1, 2), 1);
    assert_eq!(b.acquire(0), Admission::Admitted);
    let nominal = 72 * SECOND as u128;
    assert_eq!(b.jittered_wait(0), nominal);
    assert_eq!(b.jittered_wait(-36 * SECOND as i128), nominal / 2);
    assert_eq!(b.jittered_wait(36 * SECOND as i128), nominal + nominal / 2);
}

#[test]
fn ratios_compare_by_value() {
    assert!(ratio(1, 3).is_less_than(&ratio(1, 2)));
    assert!(!ratio(2, 4).is_less_than(&ratio(1, 2)));
    assert!(ratio(-1, 2).is_less_than(&ratio(0, 1)));
    assert!(ratio(-1, 0).is_less_than(&ratio(1, 0)));
    assert!(!ratio(0, 0).is_less_than(&ratio(1, 1)));
    assert!(!ratio(1, 1).is_less_than(&ratio(0, 0)));
    assert!(ratio(1, 2).is_finite() && !ratio(1, 0).is_finite());
}
