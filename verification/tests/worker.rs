use samba::worker::subject_for_result;
use samba::{
    Action, Answer, Config, Error, Event, HealthConfig, JetStreamPullWorker, MetricUpdate,
    MetricsConfig, NatsConfig, Outcome, PressureLevel, RateLimitConfig, Ratio, Turn,
    UpstreamApi, UpstreamConfig,
};

const SECOND: u64 = 1_000_000_000;

struct Reply {
    cached: bool,
    remaining: Option<u32>,
    total: Option<u32>,
}

struct Github;

impl UpstreamApi for Github {
    const NAME: &'static str = "github";
    const INITIAL_BUDGET_PER_HOUR: u32 = 5_000;
    type Request = String;
    type Response = Reply;

    fn rate_limit_remaining(&self, response: &Reply) -> Option<u32> {
        response.remaining
    }

    fn rate_limit_total(&self, response: &Reply) -> Option<u32> {
        response.total
    }

    fn was_cached_response(&self, response: &Reply) -> bool {
        response.cached
    }
}

struct Plain;

impl UpstreamApi for Plain {
    const NAME: &'static str = "plain";
    const INITIAL_BUDGET_PER_HOUR: u32 = 100;
    type Request = ();
    type Response = u32;

    fn rate_limit_remaining(&self, response: &u32) -> Option<u32> {
        Some(*response)
    }
}

fn config() -> Config {
    Config {
        upstream: UpstreamConfig {
            kind: "github".into(),
            budget_per_hour: 5000,
            budget_pct_max: 10,
        },
        rate_limit: RateLimitConfig {
            quota_pct: Ratio::new(1, 100),
            requests_per_minute_override: None,
            pressure_warn_pct: 50,
            pressure_critical_pct: 25,
            jitter_pct: Ratio::new(0, 1),
            burst: 1,
            honor_etag: true,
        },
        nats: NatsConfig {
            server_url: "nats://localhost:4222".into(),
            stream: "TEST".into(),
            consumer: "test".into(),
            result_subject: "test.results".into(),
            failed_subject: "test.failed".into(),
            fetch_timeout: "5s".into(),
        },
        metrics: MetricsConfig::default(),
        health: HealthConfig::default(),
    }
}

fn worker() -> JetStreamPullWorker<Github> {
    match JetStreamPullWorker::new(Github, config()) {
        Ok(w) => w,
        Err(e) => panic!("{}", e.message()),
    }
}

fn job() -> Event {
    Event::Fetched(Some("tend.jobs.refresh.owner_repo".to_string()))
}

fn updates(turn: &Turn) -> &[MetricUpdate] {
    &turn.updates
}

/// Bring a worker to the point where its request is with the upstream.
fn dispatched(w: &mut JetStreamPullWorker<Github>, now: u64) {
    assert!(matches!(w.step(job()).action, Action::Wait(0)));
    assert!(matches!(w.step(Event::Clock(now)).action, Action::Decode));
    assert!(matches!(w.step(Event::Decoded).action, Action::Dispatch));
}

#[test]
fn a_job_goes_through_in_order() {
    let mut w = worker();
    assert!(matches!(w.step(Event::Fetched(None)).action, Action::Fetch));
    assert!(matches!(w.step(job()).action, Action::Wait(0)));
    let turn = w.step(Event::Clock(0));
    assert!(matches!(turn.action, Action::Decode));
    assert_eq!(updates(&turn), &[MetricUpdate::PaceFactor(Ratio::new(1, 1))]);
    let turn = w.step(Event::Decoded);
    assert!(matches!(turn.action, Action::Dispatch));
    assert!(turn.updates.is_empty());
    let turn = w.on_response(&Reply { cached: false, remaining: Some(4999), total: Some(5000) });
    assert_eq!(
        updates(&turn),
        &[MetricUpdate::Counted(Outcome::Success), MetricUpdate::Remaining(4999)]
    );
    match turn.action {
        Action::Publish(subject) => assert_eq!(subject, "test.results.owner_repo"),
        _ => panic!("no result"),
    }
    assert!(matches!(w.step(Event::Published).action, Action::Ack));
    assert!(matches!(w.step(Event::Acknowledged).action, Action::Fetch));
}

#[test]
fn jobs_that_arrive_fast_are_paced() {
    let mut w = worker();
    dispatched(&mut w, 0);
    let turn = w.on_response(&Reply { cached: true, remaining: None, total: None });
    assert_eq!(updates(&turn), &[MetricUpdate::Counted(Outcome::Cached)]);
    w.step(Event::Published);
    w.step(Event::Acknowledged);
    w.step(job());
    match w.step(Event::Clock(2 * SECOND)).action {
        Action::Wait(nanos) => assert_eq!(nanos, 70 * SECOND as u128),
        _ => panic!("too fast"),
    }
    assert!(matches!(w.step(Event::Clock(72 * SECOND)).action, Action::Decode));
}

#[test]
fn observed_limit_and_headroom_are_followed() {
    let mut w = worker();
    dispatched(&mut w, 0);
    // 15000 per hour: 2.5 rpm; 4000 of 15000 left: half pace.
    w.on_response(&Reply { cached: false, remaining: Some(4000), total: Some(15000) });
    assert_eq!(w.pressure(), PressureLevel::Warn);
    w.step(Event::Published);
    w.step(Event::Acknowledged);
    w.step(job());
    match w.step(Event::Clock(0)).action {
        Action::Wait(nanos) => assert_eq!(nanos, 48 * SECOND as u128),
        _ => panic!("too fast"),
    }
    let turn = w.step(Event::Clock(48 * SECOND));
    assert_eq!(updates(&turn), &[MetricUpdate::PaceFactor(Ratio::new(1, 2))]);
    w.step(Event::Decoded);
    // No total this time: the last one observed still counts.
    w.on_response(&Reply { cached: false, remaining: Some(7500), total: Some(0) });
    assert_eq!(w.pressure(), PressureLevel::Healthy);
}

#[test]
fn a_fixed_rate_ignores_observed_limits() {
    let mut cfg = config();
    cfg.rate_limit.requests_per_minute_override = Some(8);
    let mut w = match JetStreamPullWorker::new(Github, cfg) {
        Ok(w) => w,
        Err(e) => panic!("{}", e.message()),
    };
    dispatched(&mut w, 0);
    w.on_response(&Reply { cached: false, remaining: Some(15000), total: Some(15000) });
    w.step(Event::Published);
    w.step(Event::Acknowledged);
    w.step(job());
    // 8 per minute is one each 7.5 seconds, before the report and after it.
    match w.step(Event::Clock(0)).action {
        Action::Wait(nanos) => assert_eq!(nanos, 7_500_000_000),
        _ => panic!("too fast"),
    }
    assert!(matches!(w.step(Event::Clock(7_500_000_000)).action, Action::Decode));
    w.step(Event::Decoded);
    // Headroom is still measured against the observed total: 5000 of 15000.
    w.on_response(&Reply { cached: false, remaining: Some(5000), total: None });
    assert_eq!(w.pressure(), PressureLevel::Warn);
}

#[test]
fn headroom_falls_back_to_the_initial_budget() {
    let mut w = match JetStreamPullWorker::new(Plain, config()) {
        Ok(w) => w,
        Err(e) => panic!("{}", e.message()),
    };
    w.step(job());
    w.step(Event::Clock(0));
    w.step(Event::Decoded);
    // 24 of the initial 100; a plain upstream reports no total and no cache hit.
    let turn = w.on_response(&24);
    assert_eq!(w.pressure(), PressureLevel::Critical);
    assert_eq!(
        updates(&turn),
        &[MetricUpdate::Counted(Outcome::Success), MetricUpdate::Remaining(24)]
    );
}

#[test]
fn a_failed_dispatch_is_counted_and_handed_back() {
    let mut w = worker();
    dispatched(&mut w, 0);
    let turn = w.step(Event::DispatchFailed);
    assert!(matches!(turn.action, Action::Nak));
    assert_eq!(updates(&turn), &[MetricUpdate::Counted(Outcome::Error)]);
    assert!(matches!(w.step(Event::Acknowledged).action, Action::Fetch));
}

#[test]
fn broker_and_json_failures_lead_to_a_rest() {
    let nats = |turn: Turn| match turn.action {
        Action::Rest(Error::Nats(why)) => why,
        _ => panic!("no rest"),
    };
    let serde = |turn: Turn| match turn.action {
        Action::Rest(Error::Serde(why)) => why,
        _ => panic!("no rest"),
    };
    let bad = || serde_json::from_str::<u32>("x").unwrap_err();
    let mut w = worker();
    assert_eq!(nats(w.step(Event::FetchFailed("gone".to_string()))), "gone");
    assert!(matches!(w.step(Event::Rested).action, Action::Fetch));
    w.step(job());
    w.step(Event::Clock(0));
    assert_eq!(serde(w.step(Event::DecodeFailed(bad()))), bad().to_string());
    assert!(matches!(w.step(Event::Rested).action, Action::Fetch));
    dispatched(&mut w, 72 * SECOND);
    w.on_response(&Reply { cached: false, remaining: None, total: None });
    assert_eq!(serde(w.step(Event::EncodeFailed(bad()))), bad().to_string());
    w.step(Event::Rested);
    dispatched(&mut w, 144 * SECOND);
    w.on_response(&Reply { cached: false, remaining: None, total: None });
    assert_eq!(nats(w.step(Event::PublishFailed("lost".to_string()))), "lost");
    w.step(Event::Rested);
    dispatched(&mut w, 216 * SECOND);
    w.on_response(&Reply { cached: false, remaining: None, total: None });
    w.step(Event::Published);
    assert_eq!(nats(w.step(Event::AcknowledgeFailed("late".to_string()))), "late");
    assert!(matches!(w.step(Event::Rested).action, Action::Fetch));
}

#[test]
fn events_out_of_turn_change_nothing() {
    let mut w = worker();
    assert!(matches!(w.step(Event::Decoded).action, Action::Nothing));
    assert!(matches!(w.step(Event::Clock(5)).action, Action::Nothing));
    let turn = w.step(Event::Answered(Answer { cached: false, remaining: Some(1), total: Some(9) }));
    assert!(matches!(turn.action, Action::Nothing));
    assert_eq!(w.pressure(), PressureLevel::Healthy);
    assert!(matches!(w.step(Event::Fetched(None)).action, Action::Fetch));
}

#[test]
fn only_shutdown_stops() {
    let mut w = worker();
    dispatched(&mut w, 0);
    assert!(matches!(w.step(Event::Shutdown).action, Action::Stop));
    assert!(matches!(w.step(job()).action, Action::Stop));
    assert!(matches!(w.step(Event::Clock(1)).action, Action::Stop));
}

#[test]
fn a_worker_needs_a_valid_config() {
    let mut cfg = config();
    cfg.rate_limit.quota_pct = Ratio::new(1, 2);
    assert!(JetStreamPullWorker::new(Github, cfg).is_err());
    let mut cfg = config();
    cfg.rate_limit.burst = 0;
    match JetStreamPullWorker::new(Github, cfg) {
        Err(Error::Config(why)) => assert_eq!(why, "burst must be >= 1"),
        _ => panic!("accepted"),
    }
    let w = worker();
    assert_eq!(w.config().upstream.budget_per_hour, 5000);
    assert_eq!(w.metrics().requests_total.name, "samba_requests_total");
    let reply = Reply { cached: true, remaining: None, total: None };
    assert!(w.upstream().was_cached_response(&reply));
}

#[test]
fn results_keep_the_key_of_the_job() {
    assert_eq!(subject_for_result("r", "a.b.c"), "r.c");
    assert_eq!(subject_for_result("r", "plain"), "r.plain");
    assert_eq!(subject_for_result("r.s", "a."), "r.s.");
    assert_eq!(subject_for_result("r", ""), "r.");
    assert_eq!(
        subject_for_result("tend.github.jobs.results", "tend.github.jobs.refresh.ä_ö"),
        "tend.github.jobs.results.ä_ö"
    );
}
