//! `UpstreamApi` - the typed contract every worker implements.
use vstd::prelude::*;

verus! {

/// One upstream API kind.
///
/// The trait carries what the worker needs to know of an upstream and of its
/// responses: its name for metrics and logs, its budget, and the rate-limit
/// headroom that a response reports. Implementors are typically thin wrappers
/// over an HTTP client, holding an auth token + base URL.
pub trait UpstreamApi: Sized {
    /// User-facing identifier - appears in `samba_*{upstream=...}` metric labels.
    /// Use a short kebab-case slug: `github`, `datadog`, `slack-webhook`, etc.
    const NAME: &'static str;

    /// Initial estimate of the upstream credential's budget in requests per
    /// hour. It is a fallback: headroom is measured against it until a response
    /// reports the true limit through [`UpstreamApi::rate_limit_total`]. The rate
    /// that a worker starts at comes from the config's `budget_per_hour`.
    const INITIAL_BUDGET_PER_HOUR: u32;

    /// The job payload the producer publishes.
    type Request;

    /// The response payload the worker returns to the producer.
    type Response;

    /// Report `X-RateLimit-Remaining` (or equivalent) from the response. `None`
    /// if the upstream doesn't expose remaining.
    fn rate_limit_remaining(&self, response: &Self::Response) -> Option<u32>;

    /// Report `X-RateLimit-Limit` (or equivalent) from the response - the
    /// upstream's current total budget, which the worker's rate follows unless the
    /// config fixes it. Default: none is exposed.
    fn rate_limit_total(&self, _response: &Self::Response) -> (r: Option<u32>)
        default_ensures
            r is None,
    {
        None
    }

    /// Whether a 304-equivalent (cached / no-change) response occurred. It is
    /// counted as `cached`. Its request was paced like any other, so it has taken
    /// its token. Default: never.
    fn was_cached_response(&self, _response: &Self::Response) -> (r: bool)
        default_ensures
            !r,
    {
        false
    }
}

} // verus!
