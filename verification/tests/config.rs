use samba::config::{
    default_burst, default_fetch_timeout, default_health_port, default_honor_etag,
    default_metrics_port,
};
use samba::{
    Config, Error, HealthConfig, MetricsConfig, NatsConfig, RateLimitConfig, Rate, Ratio,
    UpstreamConfig,
};

fn base_config() -> Config {
    Config {
        upstream: UpstreamConfig {
            kind: "github".into(),
            budget_per_hour: 5000,
            budget_pct_max: 10,
        },
        rate_limit: RateLimitConfig {
            quota_pct: Ratio::new(1, 100),
            requests_per_minute_override: Some(8),
            pressure_warn_pct: 50,
            pressure_critical_pct: 25,
            jitter_pct: Ratio::new(3, 10),
            burst: 1,
            honor_etag: true,
        },
        nats: NatsConfig {
            server_url: "nats://localhost:4222".into(),
            stream: "TEST".into(),
            consumer: "test".into(),
            result_subject: "test.results".into(),
            failed_subject: "test.failed".into(),
            fetch_timeout: "5s".into(),
        },
        metrics: MetricsConfig::default(),
        health: HealthConfig::default(),
    }
}

fn quota_config(num: i64, den: u32) -> Config {
    let mut cfg = base_config();
    cfg.rate_limit.requests_per_minute_override = None;
    cfg.rate_limit.quota_pct = Ratio::new(num, den);
    cfg
}

fn why(cfg: &Config) -> String {
    match cfg.validate() {
        Ok(()) => panic!("accepted"),
        Err(e) => e.message(),
    }
}

#[test]
fn validates_budget_share() {
    let mut cfg = base_config();
    cfg.rate_limit.requests_per_minute_override = Some(100); // way over 10% of 5000/hr
    assert!(cfg.validate().is_err());
}

#[test]
fn accepts_within_budget() {
    let cfg = base_config();
    assert!(cfg.validate().is_ok());
}

#[test]
fn half_of_the_budget_is_over_a_tenth() {
    assert!(quota_config(1, 2).validate().is_err());
}

#[test]
fn a_tenth_of_the_budget_is_within_a_tenth() {
    assert!(quota_config(1, 10).validate().is_ok());
    // The cap is absolute.
    assert!(quota_config(1001, 10_000).validate().is_err());
    assert!(quota_config(100_000_001, 1_000_000_000).validate().is_err());
    assert!(quota_config(99_999_999, 1_000_000_000).validate().is_ok());
}

#[test]
fn a_fixed_rate_has_a_thousandth_to_spare() {
    let mut cfg = base_config();
    cfg.upstream.budget_per_hour = 6_000_000; // 10% is 10000 per minute
    cfg.rate_limit.requests_per_minute_override = Some(10_000);
    assert!(cfg.validate().is_ok());
    cfg.rate_limit.requests_per_minute_override = Some(10_005);
    assert!(cfg.validate().is_ok());
    cfg.rate_limit.requests_per_minute_override = Some(10_011);
    assert!(cfg.validate().is_err());
}

#[test]
fn quota_pct_drives_target_rpm() {
    let rpm = quota_config(1, 100).target_rpm();
    assert_eq!(rpm, Rate { num: 5000, den: 6000 });
    assert!((rpm.num as f64 / rpm.den as f64 - 0.833).abs() < 0.01);
}

#[test]
fn override_supersedes_quota_pct() {
    let mut cfg = base_config();
    cfg.rate_limit.quota_pct = Ratio::new(0, 1);
    assert_eq!(cfg.target_rpm(), Rate { num: 8, den: 1 });
    assert!(cfg.validate().is_ok());
    let bucket = cfg.build_bucket().unwrap();
    let rpm = bucket.target_rpm();
    assert_eq!(rpm.num as f64 / rpm.den as f64, 8.0);
}

#[test]
fn rejects_zero_quota_pct_without_override() {
    assert_eq!(
        why(&quota_config(0, 1)),
        "config error: rate_limit.quota_pct must be in (0, 1]"
    );
}

#[test]
fn rejects_quota_pct_out_of_range() {
    for (num, den) in [(-1i64, 10u32), (3, 2), (0, 0), (1, 0)] {
        assert_eq!(
            why(&quota_config(num, den)),
            "config error: rate_limit.quota_pct must be in (0, 1]"
        );
    }
}

#[test]
fn rejects_inverted_thresholds() {
    let mut cfg = base_config();
    cfg.rate_limit.pressure_warn_pct = 25;
    cfg.rate_limit.pressure_critical_pct = 50;
    assert_eq!(
        why(&cfg),
        "config error: pressure_critical_pct must be <= pressure_warn_pct"
    );
}

#[test]
fn over_budget_says_what_is_allowed() {
    let mut cfg = base_config();
    cfg.rate_limit.requests_per_minute_override = Some(100);
    assert_eq!(
        why(&cfg),
        "config error: rate_limit.requests_per_minute (100) exceeds budget_pct_max (10) of \
         budget_per_hour (5000) → allowed 8.33/min"
    );
    assert_eq!(
        why(&quota_config(1, 2)),
        "config error: rate_limit.quota_pct (1/2) exceeds budget_pct_max (10) of \
         budget_per_hour (5000) → allowed 8.33/min"
    );
    cfg.upstream.budget_per_hour = 75;
    assert!(why(&cfg).ends_with("allowed 0.12/min"));
    cfg.upstream.budget_per_hour = 225;
    assert!(why(&cfg).ends_with("allowed 0.38/min"));
    cfg.upstream.budget_per_hour = 600;
    assert!(why(&cfg).ends_with("allowed 1.00/min"));
}

#[test]
fn budget_of_zero_builds_no_bucket() {
    let mut cfg = quota_config(1, 100);
    cfg.upstream.budget_per_hour = 0;
    assert!(cfg.validate().is_ok());
    match cfg.build_bucket() {
        Err(Error::Config(text)) => assert_eq!(text, "initial_rph must be > 0 and finite"),
        _ => panic!("accepted"),
    }
    cfg.rate_limit.requests_per_minute_override = Some(1);
    assert!(cfg.validate().is_err());
}

#[test]
fn a_fixed_rate_that_passes_builds_its_bucket() {
    // 1000 per minute is 60000 per hour: within a thousandth of 59970 per hour.
    let mut cfg = base_config();
    cfg.upstream.budget_per_hour = 59_970;
    cfg.upstream.budget_pct_max = 100;
    cfg.rate_limit.requests_per_minute_override = Some(1000);
    assert!(cfg.validate().is_ok());
    let rpm = cfg.build_bucket().unwrap().target_rpm();
    assert_eq!(rpm.num as f64 / rpm.den as f64, 1000.0);
    // Twice the budget, where the cap allows it.
    cfg.upstream.budget_pct_max = 200;
    cfg.rate_limit.requests_per_minute_override = Some(1999);
    assert!(cfg.validate().is_ok());
    let rpm = cfg.build_bucket().unwrap().target_rpm();
    assert_eq!(rpm.num as f64 / rpm.den as f64, 1999.0);
    // A rate of zero is no rate.
    cfg.rate_limit.requests_per_minute_override = Some(0);
    assert!(cfg.validate().is_ok());
    match cfg.build_bucket() {
        Err(Error::Config(text)) => assert_eq!(text, "initial_rph must be > 0 and finite"),
        _ => panic!("accepted"),
    }
}

#[test]
fn starts_at_the_target_rate() {
    for cfg in [base_config(), quota_config(1, 100), quota_config(7, 90)] {
        let want = cfg.target_rpm();
        let got = cfg.build_bucket().unwrap().target_rpm();
        assert_eq!(want.num as u128 * got.den, got.num as u128 * want.den);
    }
}

#[test]
fn defaults() {
    assert_eq!(default_burst(), 1);
    assert!(default_honor_etag());
    assert_eq!(default_fetch_timeout(), "5s");
    assert_eq!(default_metrics_port(), 9090);
    assert_eq!(default_health_port(), 8080);
    assert_eq!(MetricsConfig::default().port, 9090);
    assert_eq!(HealthConfig::default().port, 8080);
}

#[test]
fn config_path_and_file_errors() {
    assert_eq!(Config::path_or_default(None), "/etc/pleme-worker/config.yaml");
    assert_eq!(Config::path_or_default(Some("/tmp/c.yaml".to_string())), "/tmp/c.yaml");
    assert_eq!(
        Config::unreadable("/x", "gone").message(),
        "config error: read /x: gone"
    );
    assert_eq!(
        Config::unparsable("/x", "bad").message(),
        "config error: parse /x: bad"
    );
}
