//! Typed config - what the worker reads from `/etc/pleme-worker/config.yaml`.
//!
//! Shape mirrors the `pleme-lib.rate-limit-worker.config` Helm template's output
//! exactly. New fields go in both the chart values and this struct.
use vstd::prelude::*;

use crate::bucket::{bucket_refusal, fresh_bucket, BucketModel, LeakyBucket};
use crate::error::Error;
use crate::ratio::{Rate, Ratio};
use crate::text::{append_decimal, append_two_places, decimal, nearest, nearest_whole, two_places};

verus! {

/// Root config.
#[derive(Debug, Clone)]
pub struct Config {
    pub upstream: UpstreamConfig,
    pub rate_limit: RateLimitConfig,
    pub nats: NatsConfig,
    pub metrics: MetricsConfig,
    pub health: HealthConfig,
}

/// The upstream and its budget.
#[derive(Debug, Clone)]
pub struct UpstreamConfig {
    /// Stable kebab-case identifier, e.g. `github`, `datadog`.
    pub kind: String,
    /// Upstream credential's quota per hour, until the upstream reports one.
    pub budget_per_hour: u32,
    /// Headline percentage cap on the worker's share of the budget.
    pub budget_pct_max: u8,
}

/// Pace and pressure thresholds.
#[derive(Debug, Clone)]
pub struct RateLimitConfig {
    /// Share of the upstream's limit to use, in (0, 1].
    pub quota_pct: Ratio,
    /// Fixed rate that supersedes `quota_pct` (an escape for testing). Observed
    /// limits leave it as it is.
    pub requests_per_minute_override: Option<u32>,
    pub pressure_warn_pct: u8,
    pub pressure_critical_pct: u8,
    pub jitter_pct: Ratio,
    pub burst: u32,
    pub honor_etag: bool,
}

/// The burst of a config that names none.
pub fn default_burst() -> (r: u32)
    ensures
        r == 1,
{
    1
}

/// Whether ETags are honored where the config does not say.
pub fn default_honor_etag() -> (r: bool)
    ensures
        r,
{
    true
}

/// Broker, stream and subjects.
#[derive(Debug, Clone)]
pub struct NatsConfig {
    pub server_url: String,
    pub stream: String,
    pub consumer: String,
    pub result_subject: String,
    pub failed_subject: String,
    pub fetch_timeout: String,
}

/// The fetch timeout of a config that names none.
pub fn default_fetch_timeout() -> (r: String)
    ensures
        r@ == "5s"@,
{
    "5s".to_owned()
}

/// Where metrics are served.
#[derive(Debug, Clone)]
pub struct MetricsConfig {
    pub port: u16,
}

impl Default for MetricsConfig {
    fn default() -> (r: Self)
        ensures
            r.port == 9090,
    {
        MetricsConfig { port: default_metrics_port() }
    }
}

/// The metrics port of a config that names none.
pub fn default_metrics_port() -> (r: u16)
    ensures
        r == 9090,
{
    9090
}

/// Where health is served.
#[derive(Debug, Clone)]
pub struct HealthConfig {
    pub port: u16,
}

impl Default for HealthConfig {
    fn default() -> (r: Self)
        ensures
            r.port == 8080,
    {
        HealthConfig { port: default_health_port() }
    }
}

/// The health port of a config that names none.
pub fn default_health_port() -> (r: u16)
    ensures
        r == 8080,
{
    8080
}

impl Config {
    /// The share of the upstream's budget that the config asks for: the quota, or
    /// what the fixed rate is of the budget.
    pub open spec fn share(self) -> Ratio {
        match self.rate_limit.requests_per_minute_override {
            Some(rpm) => Ratio { num: (rpm * 60) as i64, den: self.upstream.budget_per_hour },
            None => self.rate_limit.quota_pct,
        }
    }

    /// The highest share allowed: `budget_pct_max` percent. A fixed rate, which is
    /// a whole number, has a thousandth of it to spare.
    pub open spec fn ceiling(self) -> Ratio {
        match self.rate_limit.requests_per_minute_override {
            Some(_) => Ratio {
                num: (self.upstream.budget_pct_max * 1001) as i64,
                den: 100_000,
            },
            None => Ratio { num: self.upstream.budget_pct_max as i64, den: 100 },
        }
    }

    /// The target rate per minute.
    pub open spec fn target(self) -> Rate {
        match self.rate_limit.requests_per_minute_override {
            Some(rpm) => Rate { num: rpm as i128, den: 1 },
            None => Rate {
                num: (self.rate_limit.quota_pct.num * self.upstream.budget_per_hour) as i128,
                den: (self.rate_limit.quota_pct.den * 60) as u128,
            },
        }
    }

    /// The message for a share above the ceiling.
    pub open spec fn over_budget(self) -> Seq<char> {
        let asked = match self.rate_limit.requests_per_minute_override {
            Some(rpm) => "rate_limit.requests_per_minute ("@ + decimal(rpm as nat),
            None => "rate_limit.quota_pct ("@ + decimal(self.rate_limit.quota_pct.num as nat)
                + "/"@ + decimal(self.rate_limit.quota_pct.den as nat),
        };
        asked + ") exceeds budget_pct_max ("@ + decimal(self.upstream.budget_pct_max as nat)
            + ") of budget_per_hour ("@ + decimal(self.upstream.budget_per_hour as nat)
            + ") → allowed "@ + two_places(
            nearest(
                (self.upstream.budget_per_hour * self.upstream.budget_pct_max) as nat,
                60,
            ),
        ) + "/min"@
    }

    /// Why the config is refused, if it is.
    pub open spec fn refusal(self) -> Option<Seq<char>> {
        if self.rate_limit.pressure_critical_pct > self.rate_limit.pressure_warn_pct {
            Some("pressure_critical_pct must be <= pressure_warn_pct"@)
        } else if self.rate_limit.requests_per_minute_override is None
            && !self.rate_limit.quota_pct.proper_share() {
            Some("rate_limit.quota_pct must be in (0, 1]"@)
        } else if self.ceiling().less(self.share()) {
            Some(self.over_budget())
        } else {
            None
        }
    }

    /// The share of the limit that the bucket goes by: the quota, or the whole of
    /// a limit that is itself the fixed rate.
    pub open spec fn bucket_quota(self) -> Ratio {
        match self.rate_limit.requests_per_minute_override {
            Some(_) => Ratio { num: 1, den: 1 },
            None => self.rate_limit.quota_pct,
        }
    }

    /// The limit per hour that the bucket starts with: the budget, or the fixed
    /// rate by the hour.
    pub open spec fn bucket_rph(self) -> Ratio {
        match self.rate_limit.requests_per_minute_override {
            Some(rpm) => Ratio { num: (rpm * 60) as i64, den: 1 },
            None => Ratio { num: self.upstream.budget_per_hour as i64, den: 1 },
        }
    }

    /// Why no bucket can be built for the config, if none can.
    pub open spec fn bucket_refusal(self) -> Option<Seq<char>> {
        bucket_refusal(
            self.bucket_quota(),
            self.bucket_rph(),
            self.rate_limit.pressure_warn_pct,
            self.rate_limit.pressure_critical_pct,
            self.rate_limit.jitter_pct,
            self.rate_limit.burst,
        )
    }

    /// The bucket that the config describes.
    pub open spec fn bucket(self) -> BucketModel {
        fresh_bucket(
            self.bucket_quota(),
            self.bucket_rph(),
            self.rate_limit.pressure_warn_pct,
            self.rate_limit.pressure_critical_pct,
            self.rate_limit.jitter_pct,
            self.rate_limit.burst,
        )
    }

    /// Where the config is: the path in the environment, where there is one, else
    /// `/etc/pleme-worker/config.yaml`.
    pub fn path_or_default(from_env: Option<String>) -> (r: String)
        ensures
            r@ == (match from_env {
                Some(path) => path@,
                None => "/etc/pleme-worker/config.yaml"@,
            }),
    {
        match from_env {
            Some(path) => path,
            None => "/etc/pleme-worker/config.yaml".to_owned(),
        }
    }

    /// The error for a config file that cannot be read.
    pub fn unreadable(path: &str, cause: &str) -> (r: Error)
        ensures
            r matches Error::Config(why) && why@ == "read "@ + path@ + ": "@ + cause@,
    {
        let mut why = "read ".to_owned();
        why.append(path);
        why.append(": ");
        why.append(cause);
        Error::Config(why)
    }

    /// The error for a config file that is no valid YAML config.
    pub fn unparsable(path: &str, cause: &str) -> (r: Error)
        ensures
            r matches Error::Config(why) && why@ == "parse "@ + path@ + ": "@ + cause@,
    {
        let mut why = "parse ".to_owned();
        why.append(path);
        why.append(": ");
        why.append(cause);
        Error::Config(why)
    }

    /// The share of the upstream's budget that the config asks for.
    pub fn effective_share(&self) -> (r: Ratio)
        ensures
            r == self.share(),
    {
        match self.rate_limit.requests_per_minute_override {
            Some(rpm) => Ratio::new(rpm as i64 * 60, self.upstream.budget_per_hour),
            None => self.rate_limit.quota_pct,
        }
    }

    /// The target rate: the override, or `quota_pct * budget_per_hour / 60`.
    pub fn target_rpm(&self) -> (r: Rate)
        ensures
            r == self.target(),
            self.rate_limit.requests_per_minute_override is None ==> {
                &&& r.num == self.rate_limit.quota_pct.num * self.upstream.budget_per_hour
                &&& r.den == self.rate_limit.quota_pct.den * 60
            },
    {
        match self.rate_limit.requests_per_minute_override {
            Some(rpm) => Rate { num: rpm as i128, den: 1 },
            None => {
                let num: i64 = self.rate_limit.quota_pct.num;
                let budget: u32 = self.upstream.budget_per_hour;
                assert(-0x8000_0000_0000_0000 * 0xffff_ffff <= num * budget
                    <= 0x7fff_ffff_ffff_ffff * 0xffff_ffff) by (nonlinear_arith)
                    requires
                        -0x8000_0000_0000_0000 <= num <= 0x7fff_ffff_ffff_ffff,
                        0 <= budget <= 0xffff_ffff,
                ;
                Rate {
                    num: num as i128 * budget as i128,
                    den: self.rate_limit.quota_pct.den as u128 * 60,
                }
            },
        }
    }

    /// Validate cross-cutting invariants the schema can't express.
    ///
    /// # Errors
    /// `Error::Config` if any invariant is violated.
    pub fn validate(&self) -> (r: Result<(), Error>)
        ensures
            match r {
                Ok(_) => self.refusal() is None,
                Err(Error::Config(why)) => self.refusal() == Some(why@),
                Err(_) => false,
            },
    {
        if self.rate_limit.pressure_critical_pct > self.rate_limit.pressure_warn_pct {
            return Err(
                Error::Config("pressure_critical_pct must be <= pressure_warn_pct".to_owned()),
            );
        }
        if self.rate_limit.requests_per_minute_override.is_none()
            && !self.rate_limit.quota_pct.is_proper_share() {
            return Err(Error::Config("rate_limit.quota_pct must be in (0, 1]".to_owned()));
        }
        let ceiling = match self.rate_limit.requests_per_minute_override {
            Some(_) => Ratio::new(self.upstream.budget_pct_max as i64 * 1001, 100_000),
            None => Ratio::new(self.upstream.budget_pct_max as i64, 100),
        };
        if ceiling.is_less_than(&self.effective_share()) {
            return Err(Error::Config(self.over_budget_text()));
        }
        Ok(())
    }

    fn over_budget_text(&self) -> (r: String)
        requires
            self.rate_limit.requests_per_minute_override is None
                ==> self.rate_limit.quota_pct.num >= 0,
        ensures
            r@ == self.over_budget(),
    {
        let mut line = String::new();
        match self.rate_limit.requests_per_minute_override {
            Some(rpm) => {
                line.append("rate_limit.requests_per_minute (");
                append_decimal(&mut line, rpm as u64);
            },
            None => {
                line.append("rate_limit.quota_pct (");
                append_decimal(&mut line, self.rate_limit.quota_pct.num as u64);
                line.append("/");
                append_decimal(&mut line, self.rate_limit.quota_pct.den as u64);
            },
        }
        line.append(") exceeds budget_pct_max (");
        append_decimal(&mut line, self.upstream.budget_pct_max as u64);
        line.append(") of budget_per_hour (");
        append_decimal(&mut line, self.upstream.budget_per_hour as u64);
        line.append(") → allowed ");
        let budget: u32 = self.upstream.budget_per_hour;
        let pct: u8 = self.upstream.budget_pct_max;
        assert(0 <= budget * pct <= 0xffff_ffff * 0xff) by (nonlinear_arith)
            requires
                0 <= budget <= 0xffff_ffff,
                0 <= pct <= 0xff,
        ;
        append_two_places(&mut line, nearest_whole(budget as u64 * pct as u64, 60));
        line.append("/min");
        line
    }

    /// The bucket for this config: `quota_pct` of `budget_per_hour` to start with,
    /// or the fixed rate itself.
    ///
    /// # Errors
    /// `Error::Config` if the bucket can't be built.
    pub fn build_bucket(&self) -> (r: Result<LeakyBucket, Error>)
        ensures
            match r {
                Ok(bucket) => self.bucket_refusal() is None && bucket.wf() && bucket@
                    == self.bucket(),
                Err(Error::Config(why)) => self.bucket_refusal() == Some(why@),
                Err(_) => false,
            },
    {
        let (quota, rph) = match self.rate_limit.requests_per_minute_override {
            Some(rpm) => (Ratio::new(1, 1), Ratio::new(rpm as i64 * 60, 1)),
            None => (self.rate_limit.quota_pct, Ratio::whole(self.upstream.budget_per_hour)),
        };
        LeakyBucket::new(
            quota,
            rph,
            self.rate_limit.pressure_warn_pct,
            self.rate_limit.pressure_critical_pct,
            self.rate_limit.jitter_pct,
            self.rate_limit.burst,
        )
    }
}

/// The worker starts at the config's target rate: `quota_pct * budget_per_hour /
/// 60`, or the override, which supersedes the quota.
pub proof fn law_target_rate(config: Config)
    requires
        config.bucket_refusal() is None,
    ensures
        config.target().same_as(config.bucket().target()),
{
    let b = config.upstream.budget_per_hour as int;
    match config.rate_limit.requests_per_minute_override {
        Some(rpm) => {
            let r = rpm as int;
            assert(config.bucket().full_rate() == 1 * (r * 60));
            assert(config.bucket().target().den == 1 * 1 * 60);
        },
        None => {
            let n = config.rate_limit.quota_pct.num as int;
            let d = config.rate_limit.quota_pct.den as int;
            assert(0 <= n * b <= 0xffff_ffff * 0xffff_ffff) by (nonlinear_arith)
                requires
                    0 <= n <= 0xffff_ffff,
                    0 <= b <= 0xffff_ffff,
            ;
            assert((n * b) * (d * 1 * 60) == (n * b) * (d * 60)) by (nonlinear_arith);
        },
    }
}

/// `budget_pct_max` is a cap. With a quota, a config passes exactly when the
/// thresholds are in order, the quota is in (0, 1] and it is at most
/// `budget_pct_max` percent. With a fixed rate, it passes exactly when the
/// thresholds are in order and the rate is at most `budget_pct_max` percent of
/// `budget_per_hour`, with a thousandth of that to spare.
pub proof fn law_budget_share(config: Config)
    ensures
        match config.rate_limit.requests_per_minute_override {
            None => config.refusal() is None <==> {
                &&& config.rate_limit.pressure_critical_pct <= config.rate_limit.pressure_warn_pct
                &&& config.rate_limit.quota_pct.proper_share()
                &&& 100 * config.rate_limit.quota_pct.num <= config.upstream.budget_pct_max
                    * config.rate_limit.quota_pct.den
            },
            Some(rpm) => config.refusal() is None <==> {
                &&& config.rate_limit.pressure_critical_pct <= config.rate_limit.pressure_warn_pct
                &&& rpm * 60 * 100_000 <= config.upstream.budget_pct_max * 1001
                    * config.upstream.budget_per_hour
            },
        },
{
    let share = config.share();
    let ceiling = config.ceiling();
    if config.rate_limit.requests_per_minute_override is None {
        let n = config.rate_limit.quota_pct.num as int;
        let d = config.rate_limit.quota_pct.den as int;
        let pct = config.upstream.budget_pct_max as int;
        assert(ceiling.num == pct && ceiling.den == 100);
        assert(share.num * ceiling.den == 100 * n);
        assert(ceiling.num * share.den == pct * d);
    }
}

/// With a fixed rate the quota plays no part.
pub proof fn law_override_supersedes_quota(config: Config, other: Ratio)
    requires
        config.rate_limit.requests_per_minute_override is Some,
    ensures
        ({
            let changed = Config {
                rate_limit: RateLimitConfig { quota_pct: other, ..config.rate_limit },
                ..config
            };
            &&& changed.refusal() == config.refusal()
            &&& changed.target() == config.target()
            &&& changed.bucket_refusal() == config.bucket_refusal()
            &&& changed.bucket() == config.bucket()
        }),
{
}

/// Why a config is refused: first for thresholds out of order, then for a quota
/// outside (0, 1], then for a share above the cap, and for nothing else. The last
/// message names what was asked for, the cap, the budget and the rate allowed.
pub proof fn law_refusals(config: Config)
    ensures
        ({
            let rate = config.rate_limit;
            let quota = rate.quota_pct;
            let pct = config.upstream.budget_pct_max;
            let budget = config.upstream.budget_per_hour;
            let ordered = rate.pressure_critical_pct <= rate.pressure_warn_pct;
            let share_ok = rate.requests_per_minute_override is Some || (quota.den > 0 && quota.num
                > 0 && quota.num <= quota.den);
            let above = match rate.requests_per_minute_override {
                Some(rpm) => rpm * 60 * 100_000 > pct * 1001 * budget,
                None => 100 * quota.num > pct * quota.den,
            };
            let allowed = ") exceeds budget_pct_max ("@ + decimal(pct as nat)
                + ") of budget_per_hour ("@ + decimal(budget as nat) + ") → allowed "@
                + two_places(nearest((budget * pct) as nat, 60)) + "/min"@;
            &&& !ordered ==> config.refusal() == Some(
                "pressure_critical_pct must be <= pressure_warn_pct"@,
            )
            &&& ordered && !share_ok ==> config.refusal() == Some(
                "rate_limit.quota_pct must be in (0, 1]"@,
            )
            &&& ordered && share_ok && above ==> config.refusal() == Some(
                match rate.requests_per_minute_override {
                    Some(rpm) => "rate_limit.requests_per_minute ("@ + decimal(rpm as nat)
                        + allowed,
                    None => "rate_limit.quota_pct ("@ + decimal(quota.num as nat) + "/"@ + decimal(
                        quota.den as nat,
                    ) + allowed,
                },
            )
            &&& ordered && share_ok && !above ==> config.refusal() is None
        }),
{
    law_budget_share(config);
    let pct = config.upstream.budget_pct_max;
    let budget = config.upstream.budget_per_hour;
    let allowed = ") exceeds budget_pct_max ("@ + decimal(pct as nat) + ") of budget_per_hour ("@
        + decimal(budget as nat) + ") → allowed "@ + two_places(
        nearest((budget * pct) as nat, 60),
    ) + "/min"@;
    match config.rate_limit.requests_per_minute_override {
        Some(rpm) => {
            assert(config.over_budget() =~= "rate_limit.requests_per_minute ("@ + decimal(
                rpm as nat,
            ) + allowed);
        },
        None => {
            let quota = config.rate_limit.quota_pct;
            assert(config.over_budget() =~= "rate_limit.quota_pct ("@ + decimal(quota.num as nat)
                + "/"@ + decimal(quota.den as nat) + allowed);
        },
    }
}

/// What a config asks for, in numbers: a fixed rate as it stands, which is 60 times
/// as much per hour; else the quota of the budget.
pub proof fn law_asked_for(config: Config)
    ensures
        config.rate_limit.requests_per_minute_override matches Some(rpm) ==> {
            &&& config.share().num == 60 * rpm
            &&& config.share().den == config.upstream.budget_per_hour
            &&& config.target().num == rpm
            &&& config.target().den == 1
        },
        config.rate_limit.requests_per_minute_override is None ==> {
            &&& config.share() == config.rate_limit.quota_pct
            &&& config.target().num == config.rate_limit.quota_pct.num
                * config.upstream.budget_per_hour
            &&& config.target().den == config.rate_limit.quota_pct.den * 60
        },
{
    let n = config.rate_limit.quota_pct.num as int;
    let b = config.upstream.budget_per_hour as int;
    assert(-0x8000_0000_0000_0000 * 0xffff_ffff <= n * b <= 0x7fff_ffff_ffff_ffff * 0xffff_ffff)
        by (nonlinear_arith)
        requires
            -0x8000_0000_0000_0000 <= n <= 0x7fff_ffff_ffff_ffff,
            0 <= b <= 0xffff_ffff,
    ;
}

/// The bucket of a config has the config's thresholds, jitter and burst. It goes by
/// the quota of the budget, or by the whole of the fixed rate, is healthy, and holds
/// its whole burst. It is refused as a bucket with those arguments is.
pub proof fn law_bucket_of_config(config: Config)
    ensures
        ({
            let rate = config.rate_limit;
            let bucket = config.bucket();
            let (quota, hourly) = match rate.requests_per_minute_override {
                Some(rpm) => (Ratio { num: 1, den: 1 }, 60 * rpm),
                None => (rate.quota_pct, config.upstream.budget_per_hour as int),
            };
            &&& bucket.quota == quota
            &&& bucket.hourly == hourly
            &&& bucket.scale == 1
            &&& bucket.warn == rate.pressure_warn_pct
            &&& bucket.critical == rate.pressure_critical_pct
            &&& bucket.jitter == rate.jitter_pct
            &&& bucket.burst == rate.burst
            &&& bucket.level is Healthy
            &&& bucket.last == 0
            &&& bucket.tokens == rate.burst * (quota.den * 28_800_000_000_000)
            &&& config.bucket_refusal() is None <==> {
                &&& quota.den > 0 && quota.num > 0 && quota.num <= quota.den
                &&& hourly > 0
                &&& rate.jitter_pct.den > 0 && rate.jitter_pct.num >= 0 && rate.jitter_pct.num
                    <= rate.jitter_pct.den
                &&& rate.burst >= 1
                &&& rate.pressure_critical_pct <= rate.pressure_warn_pct
            }
            &&& config.bucket_refusal() == bucket_refusal(
                quota,
                Ratio { num: hourly as i64, den: 1 },
                rate.pressure_warn_pct,
                rate.pressure_critical_pct,
                rate.jitter_pct,
                rate.burst,
            )
        }),
{
}

} // verus!
