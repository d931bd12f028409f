use samba::metric_names::{
    BUCKET_TOKENS, DISPATCH_LATENCY, PACE_FACTOR, QUEUE_DEPTH, RATE_LIMIT_REMAINING,
    REQUESTS_TOTAL,
};
use samba::{MetricKind, Metrics, Outcome};

#[test]
fn standard_names() {
    assert_eq!(REQUESTS_TOTAL, "samba_requests_total");
    assert_eq!(PACE_FACTOR, "samba_pace_factor");
    assert_eq!(RATE_LIMIT_REMAINING, "samba_rate_limit_remaining");
    assert_eq!(QUEUE_DEPTH, "samba_queue_depth");
    assert_eq!(DISPATCH_LATENCY, "samba_dispatch_latency_seconds");
    assert_eq!(BUCKET_TOKENS, "samba_bucket_tokens");
}

#[test]
fn standard_families() {
    let m = Metrics::new();
    assert_eq!(m.requests_total.kind, MetricKind::Counter);
    assert_eq!(m.requests_total.name, REQUESTS_TOTAL);
    assert_eq!(m.requests_total.labels, vec!["upstream", "outcome"]);
    assert_eq!(m.pace_factor.kind, MetricKind::Gauge);
    assert_eq!(m.pace_factor.name, PACE_FACTOR);
    assert_eq!(m.pace_factor.labels, vec!["upstream"]);
    assert_eq!(m.rate_limit_remaining.name, RATE_LIMIT_REMAINING);
    assert_eq!(m.queue_depth.labels, vec!["stream", "consumer"]);
    assert_eq!(m.dispatch_latency.kind, MetricKind::Histogram);
    assert_eq!(m.dispatch_latency.help, "Dispatch latency in seconds (wall time)");
    assert_eq!(m.bucket_tokens.name, BUCKET_TOKENS);
}

#[test]
fn families_register_side_by_side() {
    let m = Metrics::new();
    let registry = prometheus::Registry::new();
    for f in [
        &m.requests_total,
        &m.pace_factor,
        &m.rate_limit_remaining,
        &m.queue_depth,
        &m.bucket_tokens,
    ] {
        let opts = prometheus::Opts::new(f.name, f.help);
        let vec = prometheus::CounterVec::new(opts, &f.labels).unwrap();
        registry.register(Box::new(vec)).unwrap();
    }
    let f = &m.dispatch_latency;
    let opts = prometheus::HistogramOpts::new(f.name, f.help);
    let vec = prometheus::HistogramVec::new(opts, &f.labels).unwrap();
    registry.register(Box::new(vec)).unwrap();
}

#[test]
fn outcome_labels() {
    assert_eq!(Outcome::Success.label(), "success");
    assert_eq!(Outcome::Cached.label(), "cached");
    assert_eq!(Outcome::Error.label(), "error");
    assert_eq!(Outcome::Timeout.label(), "timeout");
    assert_eq!(Outcome::RateLimited.label(), "rate_limited");
    assert_eq!(Metrics::OUTCOME_SUCCESS, "success");
    assert_eq!(Metrics::OUTCOME_RATE_LIMITED, "rate_limited");
}
