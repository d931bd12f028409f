//! `LeakyBucket` - typed pacing primitive.
//!
//! Strict pace enforcement: the bucket earns exactly one token per
//! `60 / rpm` seconds, where `rpm` is its target rate shrunk by the current
//! pressure level, and holds at most `burst` of them. Time is handed in by the
//! caller, in nanoseconds since the bucket was built, and all accounting is in
//! whole units, so no fraction of a token is ever made up or lost.
use rand::Rng;
use vstd::prelude::*;

use crate::error::Error;
use crate::ratio::{Rate, Ratio};

verus! {

/// Adaptive shrinkage level driven by upstream headroom.
///
/// When the upstream's reported remaining budget drops below the configured
/// pressure thresholds, the bucket's effective rate is multiplied by the
/// level's [`PressureLevel::pace_multiplier`].
#[derive(Debug, Clone, Copy, PartialEq, Eq, Structural)]
pub enum PressureLevel {
    /// Headroom at or above the warn threshold: full pace.
    Healthy,
    /// Headroom below the warn threshold: half pace.
    Warn,
    /// Headroom below the critical threshold: quarter pace.
    Critical,
    /// Headroom below 10%: one eighth of the pace.
    Emergency,
}

/// The level that a headroom, in percent, stands for.
pub open spec fn level_for(headroom: Ratio, warn: Ratio, critical: Ratio) -> PressureLevel {
    if headroom.less(Ratio { num: 10, den: 1 }) {
        PressureLevel::Emergency
    } else if headroom.less(critical) {
        PressureLevel::Critical
    } else if headroom.less(warn) {
        PressureLevel::Warn
    } else {
        PressureLevel::Healthy
    }
}

impl PressureLevel {
    /// The pace at this level, in eighths of the full pace.
    pub open spec fn eighths(self) -> nat {
        match self {
            PressureLevel::Healthy => 8,
            PressureLevel::Warn => 4,
            PressureLevel::Critical => 2,
            PressureLevel::Emergency => 1,
        }
    }

    /// The pace at this level as a fraction of the full pace.
    pub open spec fn multiplier(self) -> Ratio {
        match self {
            PressureLevel::Healthy => Ratio { num: 1, den: 1 },
            PressureLevel::Warn => Ratio { num: 1, den: 2 },
            PressureLevel::Critical => Ratio { num: 1, den: 4 },
            PressureLevel::Emergency => Ratio { num: 1, den: 8 },
        }
    }

    /// Multiplier applied to the bucket's nominal admission rate.
    #[must_use]
    pub fn pace_multiplier(self) -> (r: Ratio)
        ensures
            r == self.multiplier(),
            r.num * 8 == self.eighths() * r.den,
    {
        match self {
            PressureLevel::Healthy => Ratio::new(1, 1),
            PressureLevel::Warn => Ratio::new(1, 2),
            PressureLevel::Critical => Ratio::new(1, 4),
            PressureLevel::Emergency => Ratio::new(1, 8),
        }
    }

    fn pace_eighths(self) -> (r: u128)
        ensures
            r == self.eighths(),
    {
        match self {
            PressureLevel::Healthy => 8,
            PressureLevel::Warn => 4,
            PressureLevel::Critical => 2,
            PressureLevel::Emergency => 1,
        }
    }

    /// The level for an observed headroom. All three arguments are percentages.
    #[must_use]
    pub fn from_headroom(headroom_pct: Ratio, warn_pct: Ratio, critical_pct: Ratio) -> (r: Self)
        ensures
            r == level_for(headroom_pct, warn_pct, critical_pct),
    {
        if headroom_pct.is_less_than(&Ratio::new(10, 1)) {
            PressureLevel::Emergency
        } else if headroom_pct.is_less_than(&critical_pct) {
            PressureLevel::Critical
        } else if headroom_pct.is_less_than(&warn_pct) {
            PressureLevel::Warn
        } else {
            PressureLevel::Healthy
        }
    }
}

/// Nanoseconds in an hour, times the eighths of the full pace.
pub open spec fn eighth_nanos_per_hour() -> nat {
    28_800_000_000_000
}

pub open spec fn min_nat(a: nat, b: nat) -> nat {
    if a <= b {
        a
    } else {
        b
    }
}

pub open spec fn max_nat(a: nat, b: nat) -> nat {
    if a >= b {
        a
    } else {
        b
    }
}

/// The smallest whole number that is at least `a / b`.
pub open spec fn ceil_div(a: nat, b: nat) -> nat
    recommends
        b > 0,
{
    ((a + b - 1) / b as int) as nat
}

/// What a bucket is, as numbers.
///
/// Tokens are counted in units. One token is [`BucketModel::cost`] units, and in
/// one nanosecond the bucket earns [`BucketModel::rate`] units, so that `rate /
/// cost` is exactly `quota * limit * multiplier` tokens per hour, brought down to
/// the nanosecond.
pub struct BucketModel {
    /// Share of the upstream's limit that the bucket may use.
    pub quota: Ratio,
    /// Denominator of the limit the bucket was built with.
    pub scale: nat,
    /// The upstream's current limit per hour, times `scale`.
    pub hourly: nat,
    /// Headroom, in percent, below which the pace is halved.
    pub warn: u8,
    /// Headroom, in percent, below which the pace is quartered.
    pub critical: u8,
    /// Jitter on a wait, as a fraction of the wait.
    pub jitter: Ratio,
    /// Tokens the bucket can hold.
    pub burst: nat,
    /// Current pressure level.
    pub level: PressureLevel,
    /// Time up to which tokens have been earned.
    pub last: nat,
    /// Units currently held.
    pub tokens: nat,
}

impl BucketModel {
    /// Units in one token.
    pub open spec fn cost(self) -> nat {
        self.quota.den as nat * self.scale * eighth_nanos_per_hour()
    }

    /// Units the bucket can hold.
    pub open spec fn capacity(self) -> nat {
        self.burst * self.cost()
    }

    /// An eighth of the units earned per nanosecond at full pace.
    pub open spec fn full_rate(self) -> nat {
        self.quota.num as nat * self.hourly
    }

    /// Units earned per nanosecond at the current pace.
    pub open spec fn rate(self) -> nat {
        self.full_rate() * self.level.eighths()
    }

    /// The target rate per minute: `quota * limit / 60`.
    pub open spec fn target(self) -> Rate {
        Rate {
            num: self.full_rate() as i128,
            den: (self.quota.den * self.scale * 60) as u128,
        }
    }

    /// The rate per minute at the current pace.
    pub open spec fn effective(self) -> Rate {
        Rate {
            num: self.rate() as i128,
            den: (self.quota.den * self.scale * 480) as u128,
        }
    }

    /// The bounds every bucket keeps.
    pub open spec fn wf(self) -> bool {
        &&& self.quota.proper_share()
        &&& 1 <= self.scale <= u32::MAX
        &&& 1 <= self.hourly <= u64::MAX
        &&& self.critical <= self.warn
        &&& self.jitter.unit()
        &&& 1 <= self.burst <= u32::MAX
        &&& self.last <= u64::MAX
        &&& self.tokens <= self.capacity()
    }

    /// The bucket once it has earned what is due up to `now`.
    pub open spec fn replenished(self, now: nat) -> BucketModel {
        let elapsed = if now > self.last {
            (now - self.last) as nat
        } else {
            0
        };
        BucketModel {
            tokens: min_nat(self.tokens + elapsed * self.rate(), self.capacity()),
            last: max_nat(self.last, now),
            ..self
        }
    }

    /// The bucket holds a whole token.
    pub open spec fn has_token(self) -> bool {
        self.tokens >= self.cost()
    }

    /// The bucket with one token less.
    pub open spec fn spent(self) -> BucketModel {
        BucketModel { tokens: (self.tokens - self.cost()) as nat, ..self }
    }

    /// A request for a token at `now` is granted.
    pub open spec fn grants(self, now: nat) -> bool {
        self.replenished(now).has_token()
    }

    /// The bucket after a request for a token at `now`.
    pub open spec fn requested(self, now: nat) -> BucketModel {
        if self.grants(now) {
            self.replenished(now).spent()
        } else {
            self.replenished(now)
        }
    }

    /// Nanoseconds until a whole token is there, at the current pace.
    pub open spec fn nominal_wait(self) -> nat {
        ceil_div((self.cost() - self.tokens) as nat, self.rate())
    }

    /// The farthest that jitter moves a wait, in nanoseconds.
    pub open spec fn spread(self) -> nat {
        self.nominal_wait() * self.jitter.num as nat / self.jitter.den as nat
    }

    /// The wait is the nominal one, moved by a number drawn from the spread where the
    /// bucket has jitter.
    pub open spec fn waits(self, nanos: u128) -> bool {
        if self.jitter.num > 0 {
            exists|offset: i128|
                #[trigger] drawn((-self.spread()) as i128, self.spread() as i128, offset) && nanos
                    == self.nominal_wait() + offset
        } else {
            nanos == self.nominal_wait()
        }
    }

    /// The bucket after the upstream has reported its limit per hour.
    pub open spec fn limited(self, observed_total: u32) -> BucketModel {
        if observed_total == 0 {
            self
        } else {
            BucketModel { hourly: observed_total as nat * self.scale, ..self }
        }
    }

    /// The bucket after the upstream has reported its remaining budget.
    pub open spec fn pressed(self, remaining: u32, budget_per_hour: u32) -> BucketModel {
        BucketModel {
            level: level_for(
                Ratio { num: (remaining * 100) as i64, den: budget_per_hour },
                Ratio { num: self.warn as i64, den: 1 },
                Ratio { num: self.critical as i64, den: 1 },
            ),
            ..self
        }
    }
}

/// What came of a request for a token.
#[derive(Debug, Clone, Copy, PartialEq, Eq, Structural)]
pub enum Admission {
    /// A token was there and has been consumed.
    Admitted,
    /// No token yet: ask again after this many nanoseconds.
    Wait(u128),
}

/// Strict-pace token bucket with adaptive shrinkage and jitter.
///
/// The rate is exact: 1% of 5000 requests per hour is 5/6 of a request per
/// minute, a period of 72 seconds.
#[derive(Debug)]
pub struct LeakyBucket {
    /// Quota fraction in (0, 1], the load-bearing knob.
    quota: Ratio,
    /// Denominator of the limit that the bucket was built with.
    scale: u32,
    /// Headroom % below which the bucket halves.
    pressure_warn_pct: u8,
    /// Headroom % below which the bucket quarters.
    pressure_critical_pct: u8,
    /// Jitter as a fraction of the nominal interval, in [0, 1].
    jitter: Ratio,
    /// Burst capacity (max tokens issued without waiting).
    burst: u32,
    state: BucketState,
}

#[derive(Debug)]
struct BucketState {
    /// Upstream limit per hour, times the bucket's `scale`.
    hourly: u64,
    /// Currently held pressure level.
    level: PressureLevel,
    /// Time up to which tokens have been earned.
    last: u64,
    /// Whole tokens currently held.
    whole: u32,
    /// Units held towards the next token.
    part: u128,
}

impl View for LeakyBucket {
    type V = BucketModel;

    closed spec fn view(&self) -> BucketModel {
        BucketModel {
            quota: self.quota,
            scale: self.scale as nat,
            hourly: self.state.hourly as nat,
            warn: self.pressure_warn_pct,
            critical: self.pressure_critical_pct,
            jitter: self.jitter,
            burst: self.burst as nat,
            level: self.state.level,
            last: self.state.last as nat,
            tokens: self.state.whole as nat * (self.quota.den as nat * self.scale as nat
                * eighth_nanos_per_hour()) + self.state.part as nat,
        }
    }
}

/// Nanoseconds in the coarse step by which elapsed time is taken apart.
const STEP_NANOS: u64 = 1_000_000;

/// Eighths of a coarse step in an hour.
const EIGHTH_STEPS_PER_HOUR: u128 = 28_800_000;

pub(crate) proof fn lemma_unit_bounds(den: u32, scale: u32)
    requires
        den >= 1,
        scale >= 1,
    ensures
        1 <= den * scale <= 0xffff_ffff * 0xffff_ffff,
        den * scale * 28_800_000 <= 0xffff_ffff * 0xffff_ffff * 28_800_000,
        den * scale * 28_800_000 * 1_000_000 == den * scale * 28_800_000_000_000,
        den * scale * 28_800_000_000_000 <= 0xffff_ffff * 0xffff_ffff * 28_800_000_000_000,
{
    assert(1 <= den * scale <= 0xffff_ffff * 0xffff_ffff) by (nonlinear_arith)
        requires
            1 <= den <= 0xffff_ffff,
            1 <= scale <= 0xffff_ffff,
    ;
}

pub(crate) proof fn lemma_rate_bounds(num: int, hourly: int, eighths: int)
    requires
        1 <= num <= 0xffff_ffff,
        1 <= hourly <= 0xffff_ffff_ffff_ffff,
        1 <= eighths <= 8,
    ensures
        1 <= num * hourly <= 0xffff_ffff * 0xffff_ffff_ffff_ffff,
        1 <= num * hourly * eighths <= 0xffff_ffff * 0xffff_ffff_ffff_ffff * 8,
{
    assert(1 <= num * hourly <= 0xffff_ffff * 0xffff_ffff_ffff_ffff) by (nonlinear_arith)
        requires
            1 <= num <= 0xffff_ffff,
            1 <= hourly <= 0xffff_ffff_ffff_ffff,
    ;
    let p = num * hourly;
    assert(1 <= p * eighths <= 0xffff_ffff * 0xffff_ffff_ffff_ffff * 8) by (nonlinear_arith)
        requires
            1 <= p <= 0xffff_ffff * 0xffff_ffff_ffff_ffff,
            1 <= eighths <= 8,
    ;
}

/// Credit that reaches the whole capacity fills the bucket.
proof fn lemma_full(held: int, credit: int, q: int, burst: int, cost: int)
    requires
        held >= 0,
        cost > 0,
        q >= burst,
        credit >= q * cost,
    ensures
        held + credit >= burst * cost,
{
    assert(q * cost >= burst * cost) by (nonlinear_arith)
        requires
            q >= burst,
            cost > 0,
    ;
}

/// Tokens and units after `elapsed` nanoseconds at `rate`, capped at `burst`.
fn earn(whole: u32, part: u128, elapsed: u64, rate: u128, tick: u128, burst: u32) -> (r: (u32, u128))
    requires
        1 <= tick <= 0xffff_ffff * 0xffff_ffff * 28_800_000,
        1 <= rate <= 0xffff_ffff * 0xffff_ffff_ffff_ffff * 8,
        part < tick * 1_000_000,
        whole <= burst,
    ensures
        r.0 * (tick * 1_000_000) + r.1 == min_nat(
            (whole * (tick * 1_000_000) + part + elapsed * rate) as nat,
            (burst * (tick * 1_000_000)) as nat,
        ),
        r.0 <= burst,
        r.1 < tick * 1_000_000,
        r.0 == burst ==> r.1 == 0,
{
    let cost: u128 = tick * 1_000_000;
    let steps: u128 = (elapsed / STEP_NANOS) as u128;
    let rest: u128 = (elapsed % STEP_NANOS) as u128;
    let ghost held: int = whole * cost + part;
    let ghost capacity: int = burst * cost;
    let ghost credit: int = elapsed * rate;
    proof {
        assert(elapsed == steps * 1_000_000 + rest);
        assert(elapsed * rate == (steps * rate) * 1_000_000 + rest * rate) by (nonlinear_arith)
            requires
                elapsed == steps * 1_000_000 + rest,
        ;
        assert(0 <= rest * rate <= 1_000_000 * (0xffff_ffff * 0xffff_ffff_ffff_ffff * 8))
            by (nonlinear_arith)
            requires
                0 <= rest <= 1_000_000,
                0 <= rate <= 0xffff_ffff * 0xffff_ffff_ffff_ffff * 8,
        ;
        assert(0 <= whole * cost) by (nonlinear_arith)
            requires
                0 <= whole,
                0 <= cost,
        ;
        assert(0 <= steps * rate) by (nonlinear_arith)
            requires
                0 <= steps,
                0 <= rate,
        ;
    }
    match steps.checked_mul(rate) {
        None => {
            proof {
                assert(burst * tick <= 0xffff_ffff * (0xffff_ffff * 0xffff_ffff * 28_800_000))
                    by (nonlinear_arith)
                    requires
                        0 <= burst <= 0xffff_ffff,
                        0 <= tick <= 0xffff_ffff * 0xffff_ffff * 28_800_000,
                ;
                assert(burst * cost == (burst * tick) * 1_000_000) by (nonlinear_arith)
                    requires
                        cost == tick * 1_000_000,
                ;
                assert(held + credit >= capacity);
            }
            (burst, 0)
        },
        Some(coarse) => {
            let q1: u128 = coarse / tick;
            let r1: u128 = coarse % tick;
            let fine: u128 = rest * rate;
            let q2: u128 = fine / cost;
            let r2: u128 = fine % cost;
            proof {
                vstd::arithmetic::div_mod::lemma_fundamental_div_mod(coarse as int, tick as int);
                vstd::arithmetic::div_mod::lemma_fundamental_div_mod(fine as int, cost as int);
                assert(coarse * 1_000_000 == q1 * cost + r1 * 1_000_000) by (nonlinear_arith)
                    requires
                        coarse == tick * q1 + r1,
                        cost == tick * 1_000_000,
                ;
                assert(cost * q2 == q2 * cost) by (nonlinear_arith);
                assert(credit == q1 * cost + r1 * 1_000_000 + q2 * cost + r2);
                assert(0 <= q1 * cost) by (nonlinear_arith)
                    requires
                        0 <= q1,
                        0 <= cost,
                ;
                assert(0 <= q2 * cost) by (nonlinear_arith)
                    requires
                        0 <= q2,
                        0 <= cost,
                ;
            }
            if q1 >= burst as u128 {
                proof {
                    lemma_full(held, credit, q1 as int, burst as int, cost as int);
                }
                return (burst, 0);
            }
            if q2 >= burst as u128 {
                proof {
                    lemma_full(held, credit, q2 as int, burst as int, cost as int);
                }
                return (burst, 0);
            }
            let left: u128 = part + r1 * 1_000_000 + r2;
            let q3: u128 = left / cost;
            let r3: u128 = left % cost;
            proof {
                vstd::arithmetic::div_mod::lemma_fundamental_div_mod(left as int, cost as int);
                assert(q3 <= 3) by (nonlinear_arith)
                    requires
                        left < 3 * cost,
                        left == cost * q3 + r3,
                        r3 >= 0,
                        cost > 0,
                ;
                assert(cost * q3 == q3 * cost) by (nonlinear_arith);
            }
            let total: u128 = whole as u128 + q1 + q2 + q3;
            proof {
                assert(total * cost == whole * cost + q1 * cost + q2 * cost + q3 * cost)
                    by (nonlinear_arith)
                    requires
                        total == whole + q1 + q2 + q3,
                ;
                assert(held + credit == total * cost + r3);
            }
            if total >= burst as u128 {
                proof {
                    assert(total * cost >= burst * cost) by (nonlinear_arith)
                        requires
                            total >= burst,
                            cost > 0,
                    ;
                }
                (burst, 0)
            } else {
                proof {
                    assert((total + 1) * cost <= burst * cost) by (nonlinear_arith)
                        requires
                            total + 1 <= burst,
                            cost > 0,
                    ;
                    assert((total + 1) * cost == total * cost + cost) by (nonlinear_arith);
                }
                (total as u32, r3)
            }
        },
    }
}

/// Why a bucket cannot be built from these arguments, if it cannot.
pub open spec fn bucket_refusal(
    quota_pct: Ratio,
    initial_rph: Ratio,
    pressure_warn_pct: u8,
    pressure_critical_pct: u8,
    jitter_pct: Ratio,
    burst: u32,
) -> Option<Seq<char>> {
    if !quota_pct.proper_share() {
        Some("quota_pct must be in (0, 1]"@)
    } else if !initial_rph.positive() {
        Some("initial_rph must be > 0 and finite"@)
    } else if !jitter_pct.unit() {
        Some("jitter_pct must be in [0, 1]"@)
    } else if burst == 0 {
        Some("burst must be >= 1"@)
    } else if pressure_critical_pct > pressure_warn_pct {
        Some("pressure_critical_pct must be <= pressure_warn_pct"@)
    } else {
        None
    }
}

/// A bucket fresh from its arguments: full, unpressed, at time zero.
pub open spec fn fresh_bucket(
    quota_pct: Ratio,
    initial_rph: Ratio,
    pressure_warn_pct: u8,
    pressure_critical_pct: u8,
    jitter_pct: Ratio,
    burst: u32,
) -> BucketModel {
    let empty = BucketModel {
        quota: quota_pct,
        scale: initial_rph.den as nat,
        hourly: initial_rph.num as nat,
        warn: pressure_warn_pct,
        critical: pressure_critical_pct,
        jitter: jitter_pct,
        burst: burst as nat,
        level: PressureLevel::Healthy,
        last: 0,
        tokens: 0,
    };
    BucketModel { tokens: empty.capacity(), ..empty }
}

/// A whole number between `low` and `high`, both included, drawn by
/// `rand::Rng::random_range` from the thread's generator, `rand::rng()`.
///
/// Claimed: the number lies in the range, which is never empty here. Which
/// number it is is left to chance. The generator is seeded by the operating
/// system; where that has no randomness to give, there is no generator and the
/// call panics.
#[verifier::external_body]
fn draw_between(low: i128, high: i128) -> (r: i128)
    requires
        low <= high,
    ensures
        low <= r <= high,
{
    rand::rng().random_range(low..=high)
}

/// The number came of a draw between `low` and `high`.
pub closed spec fn drawn(low: i128, high: i128, number: i128) -> bool {
    call_ensures(draw_between, (low, high), number)
}

/// A number drawn lies in the range it was drawn from.
pub proof fn law_drawn_in_range(low: i128, high: i128, number: i128)
    requires
        drawn(low, high, number),
    ensures
        low <= number <= high,
{
}

impl LeakyBucket {
    /// Whole tokens and the part of the next one are told apart.
    pub closed spec fn split(self) -> bool {
        &&& self.state.whole <= self.burst
        &&& self.state.part < self@.cost()
        &&& self.state.whole == self.burst ==> self.state.part == 0
    }

    /// The bucket keeps its bounds.
    pub open spec fn wf(self) -> bool {
        self@.wf() && self.split()
    }

    /// Build a bucket. The initial rate is `quota_pct * initial_rph / 60` per
    /// minute; it follows the observed limit once responses carry one.
    ///
    /// # Errors
    /// `Error::Config` for any invalid argument.
    pub fn new(
        quota_pct: Ratio,
        initial_rph: Ratio,
        pressure_warn_pct: u8,
        pressure_critical_pct: u8,
        jitter_pct: Ratio,
        burst: u32,
    ) -> (r: Result<Self, Error>)
        ensures
            match r {
                Ok(bucket) => {
                    &&& bucket_refusal(
                        quota_pct,
                        initial_rph,
                        pressure_warn_pct,
                        pressure_critical_pct,
                        jitter_pct,
                        burst,
                    ) is None
                    &&& bucket.wf()
                    &&& bucket@ == fresh_bucket(
                        quota_pct,
                        initial_rph,
                        pressure_warn_pct,
                        pressure_critical_pct,
                        jitter_pct,
                        burst,
                    )
                },
                Err(Error::Config(why)) => bucket_refusal(
                    quota_pct,
                    initial_rph,
                    pressure_warn_pct,
                    pressure_critical_pct,
                    jitter_pct,
                    burst,
                ) == Some(why@),
                Err(_) => false,
            },
    {
        if !quota_pct.is_proper_share() {
            return Err(Error::Config("quota_pct must be in (0, 1]".to_owned()));
        }
        if !initial_rph.is_positive() {
            return Err(Error::Config("initial_rph must be > 0 and finite".to_owned()));
        }
        if !jitter_pct.is_unit() {
            return Err(Error::Config("jitter_pct must be in [0, 1]".to_owned()));
        }
        if burst == 0 {
            return Err(Error::Config("burst must be >= 1".to_owned()));
        }
        if pressure_critical_pct > pressure_warn_pct {
            return Err(
                Error::Config("pressure_critical_pct must be <= pressure_warn_pct".to_owned()),
            );
        }
        let bucket = LeakyBucket {
            quota: quota_pct,
            scale: initial_rph.den,
            pressure_warn_pct,
            pressure_critical_pct,
            jitter: jitter_pct,
            burst,
            state: BucketState {
                hourly: initial_rph.num as u64,
                level: PressureLevel::Healthy,
                last: 0,
                whole: burst,
                part: 0,
            },
        };
        proof {
            lemma_unit_bounds(bucket.quota.den, bucket.scale);
        }
        Ok(bucket)
    }

    /// Follow the upstream's reported total budget per hour: the new rate is
    /// `quota_pct * observed_total / 60` per minute. A total of 0 is ignored.
    pub fn record_observed_limit(&mut self, observed_total: u32)
        requires
            old(self).wf(),
        ensures
            final(self).wf(),
            final(self)@ == old(self)@.limited(observed_total),
    {
        if observed_total == 0 {
            return;
        }
        assert(1 <= observed_total * self.scale <= 0xffff_ffff * 0xffff_ffff) by (nonlinear_arith)
            requires
                1 <= observed_total <= 0xffff_ffff,
                1 <= self.scale <= 0xffff_ffff,
        ;
        self.state.hourly = observed_total as u64 * self.scale as u64;
    }

    /// Set the pressure level from the observed upstream headroom.
    pub fn record_headroom(&mut self, remaining: u32, budget_per_hour: u32)
        requires
            old(self).wf(),
        ensures
            final(self).wf(),
            final(self)@ == old(self)@.pressed(remaining, budget_per_hour),
    {
        let headroom = Ratio::new(remaining as i64 * 100, budget_per_hour);
        self.state.level = PressureLevel::from_headroom(
            headroom,
            Ratio::new(self.pressure_warn_pct as i64, 1),
            Ratio::new(self.pressure_critical_pct as i64, 1),
        );
    }

    /// Ask for a token at time `now`: consume one if it is there, else say how
    /// long to wait before asking again.
    pub fn acquire(&mut self, now: u64) -> (r: Admission)
        requires
            old(self).wf(),
        ensures
            final(self).wf(),
            final(self)@ == old(self)@.requested(now as nat),
            r is Admitted <==> old(self)@.grants(now as nat),
            r matches Admission::Wait(nanos) ==> {
                let bucket = old(self)@.replenished(now as nat);
                &&& bucket.nominal_wait() - bucket.spread() <= nanos <= bucket.nominal_wait()
                    + bucket.spread()
                &&& bucket.waits(nanos)
            },
    {
        self.replenish(now);
        if self.state.whole >= 1 {
            proof {
                lemma_unit_bounds(self.quota.den, self.scale);
                let c = self@.cost() as int;
                let w = self.state.whole as int;
                assert(w * c == (w - 1) * c + c) by (nonlinear_arith);
                assert((w - 1) * c >= 0) by (nonlinear_arith)
                    requires
                        w >= 1,
                        c >= 0,
                ;
            }
            self.state.whole = self.state.whole - 1;
            return Admission::Admitted;
        }
        proof {
            let c = self@.cost() as int;
            assert(0 * c == 0) by (nonlinear_arith);
        }
        Admission::Wait(self.next_admission_wait())
    }

    /// Current pressure level.
    pub fn pressure(&self) -> (r: PressureLevel)
        ensures
            r == self@.level,
    {
        self.state.level
    }

    /// Effective rate: the target rate times the pace multiplier.
    pub fn effective_rpm(&self) -> (r: Rate)
        requires
            self.wf(),
        ensures
            r == self@.effective(),
            r.num == self@.rate(),
            r.den == self@.quota.den * self@.scale * 480,
    {
        proof {
            lemma_unit_bounds(self.quota.den, self.scale);
            lemma_rate_bounds(
                self.quota.num as int,
                self.state.hourly as int,
                self.state.level.eighths() as int,
            );
        }
        Rate {
            num: self.rate_units() as i128,
            den: self.quota.den as u128 * self.scale as u128 * 480,
        }
    }

    /// Target rate before pressure shrinkage: `quota * limit / 60` per minute.
    pub fn target_rpm(&self) -> (r: Rate)
        requires
            self.wf(),
        ensures
            r == self@.target(),
            r.num == self@.full_rate(),
            r.den == self@.quota.den * self@.scale * 60,
    {
        proof {
            lemma_unit_bounds(self.quota.den, self.scale);
            lemma_rate_bounds(self.quota.num as int, self.state.hourly as int, 1);
        }
        Rate {
            num: self.quota.num as i128 * self.state.hourly as i128,
            den: self.quota.den as u128 * self.scale as u128 * 60,
        }
    }

    /// Units earned per nanosecond at the current pace.
    fn rate_units(&self) -> (r: u128)
        requires
            self.wf(),
        ensures
            r == self@.rate(),
            1 <= r <= 0xffff_ffff * 0xffff_ffff_ffff_ffff * 8,
    {
        proof {
            lemma_rate_bounds(
                self.quota.num as int,
                self.state.hourly as int,
                self.state.level.eighths() as int,
            );
        }
        self.quota.num as u128 * self.state.hourly as u128 * self.state.level.pace_eighths()
    }

    /// Earn what is due up to `now`.
    pub fn replenish(&mut self, now: u64)
        requires
            old(self).wf(),
        ensures
            final(self).wf(),
            final(self)@ == old(self)@.replenished(now as nat),
    {
        let elapsed: u64 = now.saturating_sub(self.state.last);
        let rate: u128 = self.rate_units();
        proof {
            lemma_unit_bounds(self.quota.den, self.scale);
        }
        let tick: u128 = self.quota.den as u128 * self.scale as u128 * EIGHTH_STEPS_PER_HOUR;
        let (whole, part) = earn(
            self.state.whole,
            self.state.part,
            elapsed,
            rate,
            tick,
            self.burst,
        );
        self.state.whole = whole;
        self.state.part = part;
        if now > self.state.last {
            self.state.last = now;
        }
    }

    /// Nanoseconds until the next token at the current pace, rounded up.
    fn nominal_wait_nanos(&self) -> (r: u128)
        requires
            self.wf(),
            !self@.has_token(),
        ensures
            r == self@.nominal_wait(),
            r <= 0xffff_ffff * 0xffff_ffff * 28_800_000_000_000,
    {
        let rate: u128 = self.rate_units();
        proof {
            self.lemma_part_only();
            lemma_unit_bounds(self.quota.den, self.scale);
        }
        let cost: u128 = self.quota.den as u128 * self.scale as u128 * EIGHTH_STEPS_PER_HOUR
            * STEP_NANOS as u128;
        let needed: u128 = cost - self.state.part;
        proof {
            let n = needed as int;
            let d = rate as int;
            assert((n + d - 1) / d <= n) by (nonlinear_arith)
                requires
                    n >= 1,
                    d >= 1,
            ;
        }
        (needed + (rate - 1)) / rate
    }

    proof fn lemma_part_only(self)
        requires
            self.wf(),
            !self@.has_token(),
        ensures
            self.state.whole == 0,
            self@.tokens == self.state.part,
    {
        let c = self@.cost() as int;
        let w = self.state.whole as int;
        assert(w >= 1 ==> w * c >= c) by (nonlinear_arith)
            requires
                c >= 0,
        ;
        assert(0 * c == 0) by (nonlinear_arith);
    }

    /// The farthest that jitter moves the current wait, in nanoseconds.
    fn spread_nanos(&self, nominal: u128) -> (r: u128)
        requires
            self.wf(),
            nominal == self@.nominal_wait(),
            nominal <= 0xffff_ffff * 0xffff_ffff * 28_800_000_000_000,
        ensures
            r == self@.spread(),
            r <= nominal,
    {
        let num: u128 = self.jitter.num as u128;
        let den: u128 = self.jitter.den as u128;
        let q: u128 = nominal / den;
        let rest: u128 = nominal % den;
        proof {
            vstd::arithmetic::div_mod::lemma_fundamental_div_mod(nominal as int, den as int);
            assert(q * num <= q * den) by (nonlinear_arith)
                requires
                    num <= den,
                    q >= 0,
            ;
            assert(rest * num <= 0xffff_ffff * 0xffff_ffff) by (nonlinear_arith)
                requires
                    0 <= rest <= 0xffff_ffff,
                    0 <= num <= 0xffff_ffff,
            ;
            assert(0 <= q * num) by (nonlinear_arith)
                requires
                    q >= 0,
                    num >= 0,
            ;
            assert(rest * num <= rest * den) by (nonlinear_arith)
                requires
                    num <= den,
                    rest >= 0,
            ;
            assert(rest * num / den as int <= rest) by (nonlinear_arith)
                requires
                    rest * num <= rest * den,
                    den > 0,
                    rest >= 0,
            ;
            assert(nominal * num == den * (q * num) + rest * num) by (nonlinear_arith)
                requires
                    nominal == den * q + rest,
            ;
            vstd::arithmetic::div_mod::lemma_hoist_over_denominator(
                rest * num,
                q * num,
                den as nat,
            );
            assert(nominal == q * den + rest) by (nonlinear_arith)
                requires
                    nominal == den * q + rest,
            ;
        }
        q * num + rest * num / den
    }

    /// The wait for the next token once jitter has moved it by `offset`
    /// nanoseconds.
    pub fn jittered_wait(&self, offset: i128) -> (r: u128)
        requires
            self.wf(),
            !self@.has_token(),
            -self@.spread() <= offset <= self@.spread(),
        ensures
            r == self@.nominal_wait() + offset,
    {
        let nominal: u128 = self.nominal_wait_nanos();
        let spread: u128 = self.spread_nanos(nominal);
        (nominal as i128 + offset) as u128
    }

    /// Wait for the next token, with jitter drawn evenly from the spread.
    fn next_admission_wait(&self) -> (r: u128)
        requires
            self.wf(),
            !self@.has_token(),
        ensures
            self@.nominal_wait() - self@.spread() <= r <= self@.nominal_wait() + self@.spread(),
            self@.waits(r),
    {
        let nominal: u128 = self.nominal_wait_nanos();
        let spread: u128 = self.spread_nanos(nominal);
        if self.jitter.num > 0 {
            let offset: i128 = draw_between(-(spread as i128), spread as i128);
            assert(drawn((-self@.spread()) as i128, self@.spread() as i128, offset));
            self.jittered_wait(offset)
        } else {
            nominal
        }
    }
}

} // verus!
