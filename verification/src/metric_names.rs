//! Standard metric name constants - every worker emits these, every Helm
//! template's PrometheusRule references these. Single source of truth.
use vstd::prelude::*;

verus! {

pub const REQUESTS_TOTAL: &'static str = "samba_requests_total";

pub const PACE_FACTOR: &'static str = "samba_pace_factor";

pub const RATE_LIMIT_REMAINING: &'static str = "samba_rate_limit_remaining";

pub const QUEUE_DEPTH: &'static str = "samba_queue_depth";

pub const DISPATCH_LATENCY: &'static str = "samba_dispatch_latency_seconds";

pub const BUCKET_TOKENS: &'static str = "samba_bucket_tokens";

} // verus!
