//! Standardized Prometheus metrics for every worker.
//!
//! The metric names + label sets live here so every consumer emits an identical
//! surface, and one PromRule can be shared by all of them.
use vstd::prelude::*;

use crate::metric_names::{
    BUCKET_TOKENS, DISPATCH_LATENCY, PACE_FACTOR, QUEUE_DEPTH, RATE_LIMIT_REMAINING,
    REQUESTS_TOTAL,
};
use crate::ratio::Ratio;

verus! {

/// How the values of a metric family behave.
#[derive(Debug, Clone, Copy, PartialEq, Eq, Structural)]
pub enum MetricKind {
    Counter,
    Gauge,
    Histogram,
}

/// A metric family: its name, its help text and the labels that tell its metrics
/// apart.
#[derive(Debug, Clone)]
pub struct Family {
    pub kind: MetricKind,
    pub name: &'static str,
    pub help: &'static str,
    pub labels: Vec<&'static str>,
}

impl Family {
    /// The family is the one described.
    pub open spec fn is(
        self,
        kind: MetricKind,
        name: Seq<char>,
        help: Seq<char>,
        labels: Seq<Seq<char>>,
    ) -> bool {
        &&& self.kind == kind
        &&& self.name@ == name
        &&& self.help@ == help
        &&& self.labels@.len() == labels.len()
        &&& forall|i: int| 0 <= i < labels.len() ==> (#[trigger] self.labels@[i])@ == labels[i]
    }
}

fn family(kind: MetricKind, name: &'static str, help: &'static str, label: &'static str) -> (r: Family)
    ensures
        r.is(kind, name@, help@, seq![label@]),
{
    let mut labels: Vec<&'static str> = Vec::new();
    labels.push(label);
    Family { kind, name, help, labels }
}

fn family_by_two(
    kind: MetricKind,
    name: &'static str,
    help: &'static str,
    first: &'static str,
    second: &'static str,
) -> (r: Family)
    ensures
        r.is(kind, name@, help@, seq![first@, second@]),
{
    let mut labels: Vec<&'static str> = Vec::new();
    labels.push(first);
    labels.push(second);
    Family { kind, name, help, labels }
}

/// Collection of all standard metrics. One instance per worker.
#[derive(Debug, Clone)]
pub struct Metrics {
    pub requests_total: Family,
    pub pace_factor: Family,
    pub rate_limit_remaining: Family,
    pub queue_depth: Family,
    pub dispatch_latency: Family,
    pub bucket_tokens: Family,
}

impl Metrics {
    /// Outcomes recognized by the standard alert rules.
    pub const OUTCOME_SUCCESS: &'static str = "success";

    pub const OUTCOME_CACHED: &'static str = "cached";

    pub const OUTCOME_ERROR: &'static str = "error";

    pub const OUTCOME_TIMEOUT: &'static str = "timeout";

    pub const OUTCOME_RATE_LIMITED: &'static str = "rate_limited";

    /// The six standard families.
    pub open spec fn standard(self) -> bool {
        &&& self.requests_total.is(
            MetricKind::Counter,
            "samba_requests_total"@,
            "Total upstream API requests dispatched"@,
            seq!["upstream"@, "outcome"@],
        )
        &&& self.pace_factor.is(
            MetricKind::Gauge,
            "samba_pace_factor"@,
            "Current adaptive pace multiplier (0..1)"@,
            seq!["upstream"@],
        )
        &&& self.rate_limit_remaining.is(
            MetricKind::Gauge,
            "samba_rate_limit_remaining"@,
            "Last-seen X-RateLimit-Remaining (or equivalent)"@,
            seq!["upstream"@],
        )
        &&& self.queue_depth.is(
            MetricKind::Gauge,
            "samba_queue_depth"@,
            "Pending messages in the JetStream consumer (NATS num_pending)"@,
            seq!["stream"@, "consumer"@],
        )
        &&& self.dispatch_latency.is(
            MetricKind::Histogram,
            "samba_dispatch_latency_seconds"@,
            "Dispatch latency in seconds (wall time)"@,
            seq!["upstream"@],
        )
        &&& self.bucket_tokens.is(
            MetricKind::Gauge,
            "samba_bucket_tokens"@,
            "Tokens currently in the leaky bucket"@,
            seq!["upstream"@],
        )
    }

    /// The families that every worker registers and emits.
    pub fn new() -> (r: Self)
        ensures
            r.standard(),
    {
        Metrics {
            requests_total: family_by_two(
                MetricKind::Counter,
                REQUESTS_TOTAL,
                "Total upstream API requests dispatched",
                "upstream",
                "outcome",
            ),
            pace_factor: family(
                MetricKind::Gauge,
                PACE_FACTOR,
                "Current adaptive pace multiplier (0..1)",
                "upstream",
            ),
            rate_limit_remaining: family(
                MetricKind::Gauge,
                RATE_LIMIT_REMAINING,
                "Last-seen X-RateLimit-Remaining (or equivalent)",
                "upstream",
            ),
            queue_depth: family_by_two(
                MetricKind::Gauge,
                QUEUE_DEPTH,
                "Pending messages in the JetStream consumer (NATS num_pending)",
                "stream",
                "consumer",
            ),
            dispatch_latency: family(
                MetricKind::Histogram,
                DISPATCH_LATENCY,
                "Dispatch latency in seconds (wall time)",
                "upstream",
            ),
            bucket_tokens: family(
                MetricKind::Gauge,
                BUCKET_TOKENS,
                "Tokens currently in the leaky bucket",
                "upstream",
            ),
        }
    }
}

/// How a dispatch ended, as the `outcome` label tells it.
#[derive(Debug, Clone, Copy, PartialEq, Eq, Structural)]
pub enum Outcome {
    Success,
    Cached,
    Error,
    Timeout,
    RateLimited,
}

impl Outcome {
    /// The value of the `outcome` label.
    pub fn label(self) -> (r: &'static str)
        ensures
            r@ == (match self {
                Outcome::Success => "success"@,
                Outcome::Cached => "cached"@,
                Outcome::Error => "error"@,
                Outcome::Timeout => "timeout"@,
                Outcome::RateLimited => "rate_limited"@,
            }),
    {
        match self {
            Outcome::Success => Metrics::OUTCOME_SUCCESS,
            Outcome::Cached => Metrics::OUTCOME_CACHED,
            Outcome::Error => Metrics::OUTCOME_ERROR,
            Outcome::Timeout => Metrics::OUTCOME_TIMEOUT,
            Outcome::RateLimited => Metrics::OUTCOME_RATE_LIMITED,
        }
    }
}

/// A change to a worker's metrics.
#[derive(Debug, Clone, Copy, PartialEq, Eq, Structural)]
pub enum MetricUpdate {
    /// One more request with this outcome.
    Counted(Outcome),
    /// The current pace multiplier.
    PaceFactor(Ratio),
    /// The last-seen remaining budget.
    Remaining(u32),
}

/// The standard families have the names, kinds and labels that alert rules select
/// by, and say what they measure.
pub proof fn law_standard_families(metrics: Metrics)
    requires
        metrics.standard(),
    ensures
        metrics.requests_total.kind == MetricKind::Counter,
        metrics.requests_total.name@ == "samba_requests_total"@,
        metrics.requests_total.help@ == "Total upstream API requests dispatched"@,
        metrics.requests_total.labels@.len() == 2,
        metrics.requests_total.labels@[0]@ == "upstream"@,
        metrics.requests_total.labels@[1]@ == "outcome"@,
        metrics.pace_factor.kind == MetricKind::Gauge,
        metrics.pace_factor.name@ == "samba_pace_factor"@,
        metrics.pace_factor.help@ == "Current adaptive pace multiplier (0..1)"@,
        metrics.pace_factor.labels@.len() == 1,
        metrics.pace_factor.labels@[0]@ == "upstream"@,
        metrics.rate_limit_remaining.kind == MetricKind::Gauge,
        metrics.rate_limit_remaining.name@ == "samba_rate_limit_remaining"@,
        metrics.rate_limit_remaining.help@ == "Last-seen X-RateLimit-Remaining (or equivalent)"@,
        metrics.rate_limit_remaining.labels@.len() == 1,
        metrics.rate_limit_remaining.labels@[0]@ == "upstream"@,
        metrics.queue_depth.kind == MetricKind::Gauge,
        metrics.queue_depth.name@ == "samba_queue_depth"@,
        metrics.queue_depth.help@
            == "Pending messages in the JetStream consumer (NATS num_pending)"@,
        metrics.queue_depth.labels@.len() == 2,
        metrics.queue_depth.labels@[0]@ == "stream"@,
        metrics.queue_depth.labels@[1]@ == "consumer"@,
        metrics.dispatch_latency.kind == MetricKind::Histogram,
        metrics.dispatch_latency.name@ == "samba_dispatch_latency_seconds"@,
        metrics.dispatch_latency.help@ == "Dispatch latency in seconds (wall time)"@,
        metrics.dispatch_latency.labels@.len() == 1,
        metrics.dispatch_latency.labels@[0]@ == "upstream"@,
        metrics.bucket_tokens.kind == MetricKind::Gauge,
        metrics.bucket_tokens.name@ == "samba_bucket_tokens"@,
        metrics.bucket_tokens.help@ == "Tokens currently in the leaky bucket"@,
        metrics.bucket_tokens.labels@.len() == 1,
        metrics.bucket_tokens.labels@[0]@ == "upstream"@,
{
}

} // verus!
