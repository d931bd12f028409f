//! Samba - typed rate-limited consumer primitive.
//!
//! Samba turns the operational pattern *"don't let any caller exceed its share
//! of an upstream API budget"* into a verified Rust primitive. Producers publish
//! to NATS; a single drain dispatches at a fixed pace; the rate-limit invariant is
//! a theorem rather than a runtime guess.
//!
//! - [`LeakyBucket`]: strict-pace token bucket with adaptive shrinkage and a rate
//!   that follows the upstream's reported limit.
//! - [`JetStreamPullWorker`]: what a worker does next, event by event.
//! - [`UpstreamApi`]: what a worker needs to know of an upstream.
//! - [`pacing`] and [`dispatching`]: what holds of buckets and workers over any
//!   course of events.

pub mod bucket;
pub mod config;
pub mod dispatching;
pub mod error;
pub mod metric_names;
pub mod metrics;
pub mod pacing;
pub mod ratio;
pub mod text;
pub mod upstream;
pub mod worker;

pub use bucket::{Admission, LeakyBucket, PressureLevel};
pub use config::{
    Config, HealthConfig, MetricsConfig, NatsConfig, RateLimitConfig, UpstreamConfig,
};
pub use error::Error;
pub use metrics::{Family, MetricKind, MetricUpdate, Metrics, Outcome};
pub use ratio::{Rate, Ratio};
pub use upstream::UpstreamApi;
pub use worker::{Action, Answer, Event, JetStreamPullWorker, Turn};
