//! What holds of a bucket over any course of events.
use vstd::prelude::*;

use crate::bucket::{
    bucket_refusal, drawn, fresh_bucket, lemma_rate_bounds, lemma_unit_bounds, level_for, BucketModel,
    PressureLevel,
};
use crate::ratio::{law_less_compares_values, lemma_less_transitive, Rate, Ratio};

verus! {

/// Something that happens to a bucket.
pub enum BucketEvent {
    /// A token is asked for at this time.
    Request(nat),
    /// The upstream reports its limit per hour.
    Limit(u32),
    /// The upstream reports what remains of a budget per hour.
    Headroom(u32, u32),
}

/// The bucket after one event.
pub open spec fn bucket_after(bucket: BucketModel, event: BucketEvent) -> BucketModel {
    match event {
        BucketEvent::Request(now) => bucket.requested(now),
        BucketEvent::Limit(total) => bucket.limited(total),
        BucketEvent::Headroom(remaining, budget) => bucket.pressed(remaining, budget),
    }
}

/// The bucket after a course of events.
pub open spec fn bucket_run(bucket: BucketModel, events: Seq<BucketEvent>) -> BucketModel
    decreases events.len(),
{
    if events.len() == 0 {
        bucket
    } else {
        bucket_after(bucket_run(bucket, events.drop_last()), events.last())
    }
}

/// The event takes a token out of the bucket.
pub open spec fn admits(bucket: BucketModel, event: BucketEvent) -> bool {
    match event {
        BucketEvent::Request(now) => bucket.grants(now),
        _ => false,
    }
}

/// Tokens given out over a course of events.
pub open spec fn admissions(bucket: BucketModel, events: Seq<BucketEvent>) -> nat
    decreases events.len(),
{
    if events.len() == 0 {
        0
    } else {
        admissions(bucket, events.drop_last()) + if admits(
            bucket_run(bucket, events.drop_last()),
            events.last(),
        ) {
            1nat
        } else {
            0nat
        }
    }
}

/// No event reports a limit above `limit`.
pub open spec fn limits_up_to(events: Seq<BucketEvent>, limit: nat) -> bool {
    forall|i: int|
        0 <= i < events.len() ==> (#[trigger] events[i] matches BucketEvent::Limit(total) ==> total
            <= limit)
}

/// One request moves the bucket's holdings by what was earned and what was
/// given out, and earns at most at the current rate.
pub(crate) proof fn lemma_request_step(bucket: BucketModel, now: nat)
    ensures
        bucket.requested(now).tokens + (if bucket.grants(now) {
            bucket.cost()
        } else {
            0
        }) <= bucket.tokens + bucket.rate() * (bucket.requested(now).last - bucket.last),
        bucket.requested(now).last >= bucket.last,
        bucket.requested(now).last >= now,
        bucket.requested(now).tokens <= bucket.capacity(),
{
    let elapsed: int = if now > bucket.last {
        now - bucket.last
    } else {
        0
    };
    assert(elapsed * bucket.rate() == bucket.rate() * elapsed) by (nonlinear_arith);
    assert(0 * bucket.rate() == 0) by (nonlinear_arith);
}

proof fn lemma_run_frame(bucket: BucketModel, events: Seq<BucketEvent>)
    ensures
        bucket_run(bucket, events).quota == bucket.quota,
        bucket_run(bucket, events).scale == bucket.scale,
        bucket_run(bucket, events).cost() == bucket.cost(),
        bucket_run(bucket, events).last >= bucket.last,
    decreases events.len(),
{
    if events.len() > 0 {
        lemma_run_frame(bucket, events.drop_last());
    }
}

/// Tokens given out, together with those still held, never exceed the tokens
/// held at the start and what the highest rate of the course earns in its time.
pub proof fn law_admissions_bounded(bucket: BucketModel, events: Seq<BucketEvent>, peak: nat)
    requires
        forall|i: int|
            0 <= i <= events.len() ==> (#[trigger] bucket_run(bucket, events.take(i))).rate()
                <= peak,
    ensures
        admissions(bucket, events) * bucket.cost() + bucket_run(bucket, events).tokens
            <= bucket.tokens + peak * (bucket_run(bucket, events).last - bucket.last),
        bucket_run(bucket, events).last >= bucket.last,
    decreases events.len(),
{
    assert(0 * bucket.cost() == 0) by (nonlinear_arith);
    assert(peak * 0 == 0) by (nonlinear_arith);
    if events.len() > 0 {
        let before = events.drop_last();
        let mid = bucket_run(bucket, before);
        let end = bucket_run(bucket, events);
        assert forall|i: int| 0 <= i <= before.len() implies (#[trigger] bucket_run(
            bucket,
            before.take(i),
        )).rate() <= peak by {
            assert(before.take(i) =~= events.take(i));
        }
        law_admissions_bounded(bucket, before, peak);
        lemma_run_frame(bucket, before);
        let n = admissions(bucket, before) as int;
        let c = bucket.cost() as int;
        assert((n + 1) * c == n * c + c) by (nonlinear_arith);
        assert(before =~= events.take(before.len() as int));
        assert(mid.rate() <= peak);
        match events.last() {
            BucketEvent::Request(now) => {
                lemma_request_step(mid, now);
                let dt = end.last - mid.last;
                let r = mid.rate() as int;
                let p = peak as int;
                assert(r * dt <= p * dt) by (nonlinear_arith)
                    requires
                        r <= p,
                        dt >= 0,
                ;
                assert(p * (end.last - bucket.last) == p * (mid.last - bucket.last) + p * dt)
                    by (nonlinear_arith)
                    requires
                        dt == end.last - mid.last,
                ;
            },
            _ => {},
        }
    }
}

proof fn lemma_run_hourly(bucket: BucketModel, events: Seq<BucketEvent>, limit: nat)
    requires
        bucket.hourly <= limit * bucket.scale,
        limits_up_to(events, limit),
    ensures
        bucket_run(bucket, events).hourly <= limit * bucket.scale,
    decreases events.len(),
{
    if events.len() > 0 {
        let before = events.drop_last();
        assert forall|i: int| 0 <= i < before.len() implies (
        #[trigger] before[i] matches BucketEvent::Limit(total) ==> total <= limit) by {
            assert(before[i] == events[i]);
        }
        lemma_run_hourly(bucket, before, limit);
        lemma_run_frame(bucket, before);
        assert(events.last() == events[events.len() - 1]);
        match events.last() {
            BucketEvent::Limit(total) => {
                let t = total as int;
                let l = limit as int;
                let s = bucket.scale as int;
                assert(t * s <= l * s) by (nonlinear_arith)
                    requires
                        t <= l,
                        s >= 0,
                ;
            },
            _ => {},
        }
    }
}

/// The sustained rate is at most `quota` of the upstream's limit: in any course
/// of events in which the limit never exceeds `limit` per hour, the tokens given
/// out are at most the burst and `quota * limit` per hour of the time that
/// passed, which is counted in nanoseconds.
pub proof fn law_sustained_rate(bucket: BucketModel, events: Seq<BucketEvent>, limit: nat)
    requires
        bucket.wf(),
        bucket.hourly <= limit * bucket.scale,
        limits_up_to(events, limit),
    ensures
        bucket_run(bucket, events).last >= bucket.last,
        admissions(bucket, events) * (bucket.quota.den * 3_600_000_000_000) <= bucket.burst * (
        bucket.quota.den * 3_600_000_000_000) + bucket.quota.num * limit * (bucket_run(
            bucket,
            events,
        ).last - bucket.last),
{
    let num = bucket.quota.num as int;
    let den = bucket.quota.den as int;
    let scale = bucket.scale as int;
    let l = limit as int;
    let peak: nat = (num * (l * scale) * 8) as nat;
    assert(num * (l * scale) * 8 >= 0) by (nonlinear_arith)
        requires
            num >= 0,
            l >= 0,
            scale >= 0,
    ;
    assert forall|i: int| 0 <= i <= events.len() implies (#[trigger] bucket_run(
        bucket,
        events.take(i),
    )).rate() <= peak by {
        let sofar = events.take(i);
        assert forall|j: int| 0 <= j < sofar.len() implies (
        #[trigger] sofar[j] matches BucketEvent::Limit(total) ==> total <= limit) by {
            assert(sofar[j] == events[j]);
        }
        lemma_run_hourly(bucket, sofar, limit);
        lemma_run_frame(bucket, sofar);
        let m = bucket_run(bucket, sofar);
        let h = m.hourly as int;
        let e = m.level.eighths() as int;
        assert(num * h * e <= num * (l * scale) * 8) by (nonlinear_arith)
            requires
                num >= 0,
                0 <= h <= l * scale,
                0 <= e <= 8,
        ;
    }
    law_admissions_bounded(bucket, events, peak);
    let n = admissions(bucket, events) as int;
    let b = bucket.burst as int;
    let dt = bucket_run(bucket, events).last - bucket.last;
    let cost = bucket.cost() as int;
    let hour = den * 3_600_000_000_000;
    assert(cost == hour * (8 * scale)) by (nonlinear_arith)
        requires
            cost == den * scale * 28_800_000_000_000,
            hour == den * 3_600_000_000_000,
    ;
    assert(n * cost == (n * hour) * (8 * scale)) by (nonlinear_arith)
        requires
            cost == hour * (8 * scale),
    ;
    assert(b * cost == (b * hour) * (8 * scale)) by (nonlinear_arith)
        requires
            cost == hour * (8 * scale),
    ;
    assert(peak * dt == (num * l * dt) * (8 * scale)) by (nonlinear_arith)
        requires
            peak == num * (l * scale) * 8,
    ;
    assert(n * hour <= b * hour + num * l * dt) by (nonlinear_arith)
        requires
            (n * hour) * (8 * scale) <= (b * hour) * (8 * scale) + (num * l * dt) * (8 * scale),
            scale >= 1,
    ;
}

/// Strict pace: without a token in hand, one is granted exactly from the moment
/// on that the nominal wait is over.
pub proof fn law_granted_after_wait(bucket: BucketModel, now: nat)
    requires
        bucket.wf(),
        !bucket.has_token(),
        now >= bucket.last,
    ensures
        bucket.grants(now) <==> now - bucket.last >= bucket.nominal_wait(),
{
    let need = bucket.cost() - bucket.tokens;
    let r = bucket.rate() as int;
    let dt = now - bucket.last;
    lemma_positive_rate(bucket);
    let b = bucket.burst as int;
    let c = bucket.cost() as int;
    assert(b * c >= c) by (nonlinear_arith)
        requires
            b >= 1,
            c >= 0,
    ;
    assert(dt * r >= need <==> dt >= (need + r - 1) / r) by (nonlinear_arith)
        requires
            r >= 1,
            need >= 1,
            dt >= 0,
    ;
}

proof fn lemma_positive_rate(bucket: BucketModel)
    requires
        bucket.wf(),
    ensures
        bucket.rate() >= 1,
        bucket.cost() >= 1,
{
    let n = bucket.quota.num as int;
    let h = bucket.hourly as int;
    let e = bucket.level.eighths() as int;
    assert(n * h * e >= 1) by (nonlinear_arith)
        requires
            n >= 1,
            h >= 1,
            e >= 1,
    ;
    let d = bucket.quota.den as int;
    let s = bucket.scale as int;
    assert(d * s * 28_800_000_000_000 >= 1) by (nonlinear_arith)
        requires
            d >= 1,
            s >= 1,
    ;
}

/// One token per period: with a burst of one and an unchanged rate, two tokens
/// in a row are granted at least a whole period apart, which is `cost / rate`
/// nanoseconds, that is `60 / rpm` seconds.
pub proof fn law_one_per_period(bucket: BucketModel, first: nat, second: nat)
    requires
        bucket.wf(),
        bucket.burst == 1,
        first >= bucket.last,
        bucket.grants(first),
        bucket.requested(first).grants(second),
    ensures
        second >= first,
        (second - first) * bucket.rate() >= bucket.cost(),
{
    lemma_positive_rate(bucket);
    let after = bucket.requested(first);
    assert(1 * bucket.cost() == bucket.cost());
    assert(after.tokens == 0);
    assert(0 * bucket.rate() == 0) by (nonlinear_arith);
}

/// Less headroom never gives a faster pace.
pub proof fn law_pressure_shrinks(low: Ratio, high: Ratio, warn: Ratio, critical: Ratio)
    requires
        !low.undefined(),
        !high.less(low),
    ensures
        level_for(low, warn, critical).eighths() <= level_for(high, warn, critical).eighths(),
{
    let ten = Ratio { num: 10, den: 1 };
    if high.less(ten) {
        lemma_less_transitive(low, high, ten);
    }
    if high.less(critical) {
        lemma_less_transitive(low, high, critical);
    }
    if high.less(warn) {
        lemma_less_transitive(low, high, warn);
    }
}

/// The effective rate is the target rate times the pace multiplier: the target
/// itself while the upstream is healthy, and never more.
pub proof fn law_effective_rate(bucket: BucketModel)
    requires
        bucket.wf(),
    ensures
        bucket.effective().num * (bucket.target().den * bucket.level.multiplier().den)
            == bucket.target().num * bucket.level.multiplier().num * bucket.effective().den,
        bucket.level == PressureLevel::Healthy ==> bucket.effective().same_as(bucket.target()),
        bucket.effective().num * bucket.target().den <= bucket.target().num
            * bucket.effective().den,
{
    let f = bucket.full_rate() as int;
    let e = bucket.level.eighths() as int;
    let u = bucket.quota.den as int * bucket.scale as int;
    lemma_unit_bounds(bucket.quota.den, bucket.scale as u32);
    lemma_rate_bounds(bucket.quota.num as int, bucket.hourly as int, e);
    let (mn, md) = (
        bucket.level.multiplier().num as int,
        bucket.level.multiplier().den as int,
    );
    assert(8 * mn == e * md);
    assert((f * e) * ((u * 60) * md) == f * mn * (u * 480)) by (nonlinear_arith)
        requires
            8 * mn == e * md,
    ;
    assert((f * 8) * (u * 60) == f * (u * 480)) by (nonlinear_arith);
    assert((f * e) * (u * 60) <= f * (u * 480)) by (nonlinear_arith)
        requires
            0 <= f,
            0 <= u,
            0 <= e <= 8,
    {
        assert(f * e <= f * 8);
        assert((f * e) * (u * 60) <= (f * 8) * (u * 60));
    }
}

/// The rate follows the limit: once the upstream has reported a total, other than
/// zero, the target is `quota * total / 60` per minute, whatever it was before.
pub proof fn law_rate_follows_limit(bucket: BucketModel, total: u32)
    requires
        bucket.wf(),
        total != 0,
    ensures
        bucket.limited(total).target().same_as(
            Rate {
                num: (bucket.quota.num * total) as i128,
                den: (bucket.quota.den * 60) as u128,
            },
        ),
{
    let n = bucket.quota.num as int;
    let d = bucket.quota.den as int;
    let s = bucket.scale as int;
    let t = total as int;
    lemma_unit_bounds(bucket.quota.den, bucket.scale as u32);
    assert(1 <= t * s <= 0xffff_ffff * 0xffff_ffff) by (nonlinear_arith)
        requires
            1 <= t <= 0xffff_ffff,
            1 <= s <= 0xffff_ffff,
    ;
    lemma_rate_bounds(n, t * s, 1);
    lemma_rate_bounds(n, t, 1);
    assert((n * (t * s)) * (d * 60) == (n * t) * (d * s * 60)) by (nonlinear_arith);
}

/// Each instant is credited once: asking the bucket to earn again at the same
/// time changes nothing, and earning in two steps is the same as earning in one.
pub proof fn law_credited_once(bucket: BucketModel, mid: nat, now: nat)
    requires
        mid <= now,
    ensures
        bucket.replenished(now).replenished(now) == bucket.replenished(now),
        bucket.replenished(mid).replenished(now) == bucket.replenished(now),
{
    let r = bucket.rate() as int;
    assert(0 * r == 0) by (nonlinear_arith);
    if mid > bucket.last {
        let a = mid - bucket.last;
        let b = now - mid;
        assert((a + b) * r == a * r + b * r) by (nonlinear_arith);
        assert(a * r >= 0 && b * r >= 0) by (nonlinear_arith)
            requires
                a >= 0,
                b >= 0,
                r >= 0,
        ;
    }
}

/// A bucket never holds more than its burst, whatever happens to it.
pub proof fn law_burst_is_a_cap(bucket: BucketModel, events: Seq<BucketEvent>)
    requires
        bucket.tokens <= bucket.capacity(),
    ensures
        bucket_run(bucket, events).tokens <= bucket.capacity(),
        bucket_run(bucket, events).capacity() == bucket.capacity(),
    decreases events.len(),
{
    if events.len() > 0 {
        law_burst_is_a_cap(bucket, events.drop_last());
        lemma_run_frame(bucket, events.drop_last());
    }
}

/// Reports settle: the same report twice is the same as once, the last of two
/// limits counts, a limit of zero is no report, and limit and headroom reports
/// do not depend on their order.
pub proof fn law_reports_settle(
    bucket: BucketModel,
    total: u32,
    other: u32,
    remaining: u32,
    budget: u32,
)
    ensures
        bucket.limited(total).limited(total) == bucket.limited(total),
        total != 0 ==> bucket.limited(other).limited(total) == bucket.limited(total),
        bucket.limited(0) == bucket,
        bucket.pressed(remaining, budget).pressed(remaining, budget) == bucket.pressed(
            remaining,
            budget,
        ),
        bucket.pressed(remaining, budget).limited(total) == bucket.limited(total).pressed(
            remaining,
            budget,
        ),
{
}

/// The thresholds given are the ones that count: below 10 the level is
/// `Emergency`, else below the critical threshold `Critical`, else below the warn
/// threshold `Warn`, else `Healthy`. A headroom that is no number, or is infinite,
/// is `Healthy`.
pub proof fn law_level_by_thresholds(headroom: Ratio, warn: Ratio, critical: Ratio)
    requires
        warn.den > 0,
        critical.den > 0,
    ensures
        headroom.den > 0 ==> ({
            let level = level_for(headroom, warn, critical);
            let below_ten = headroom.num < 10 * headroom.den;
            let below_critical = headroom.num * critical.den < critical.num * headroom.den;
            let below_warn = headroom.num * warn.den < warn.num * headroom.den;
            &&& level is Emergency <==> below_ten
            &&& level is Critical <==> !below_ten && below_critical
            &&& level is Warn <==> !below_ten && !below_critical && below_warn
            &&& level is Healthy <==> !below_ten && !below_critical && !below_warn
        }),
        headroom.den == 0 && headroom.num >= 0 ==> level_for(headroom, warn, critical) is Healthy,
        headroom.den == 0 && headroom.num < 0 ==> level_for(headroom, warn, critical) is Emergency,
{
    let ten = Ratio { num: 10, den: 1 };
    assert(headroom.num * ten.den == headroom.num);
    assert(ten.num * headroom.den == 10 * headroom.den);
    law_less_compares_values(headroom, ten);
    law_less_compares_values(headroom, warn);
    law_less_compares_values(headroom, critical);
}

/// A headroom report sets the level by what it says and by the thresholds alone:
/// the level before, and all else about the bucket, plays no part. It changes
/// nothing but the level.
pub proof fn law_level_after_report(
    bucket: BucketModel,
    other: BucketModel,
    remaining: u32,
    budget: u32,
)
    requires
        bucket.warn == other.warn,
        bucket.critical == other.critical,
    ensures
        bucket.pressed(remaining, budget).level == other.pressed(remaining, budget).level,
        budget > 0 ==> ({
            let level = bucket.pressed(remaining, budget).level;
            let below_ten = 100 * remaining < 10 * budget;
            let below_critical = 100 * remaining < bucket.critical * budget;
            let below_warn = 100 * remaining < bucket.warn * budget;
            &&& level is Emergency <==> below_ten
            &&& level is Critical <==> !below_ten && below_critical
            &&& level is Warn <==> !below_ten && !below_critical && below_warn
            &&& level is Healthy <==> !below_ten && !below_critical && !below_warn
        }),
        budget == 0 ==> bucket.pressed(remaining, budget).level is Healthy,
        bucket.pressed(remaining, budget).quota == bucket.quota,
        bucket.pressed(remaining, budget).scale == bucket.scale,
        bucket.pressed(remaining, budget).hourly == bucket.hourly,
        bucket.pressed(remaining, budget).warn == bucket.warn,
        bucket.pressed(remaining, budget).critical == bucket.critical,
        bucket.pressed(remaining, budget).jitter == bucket.jitter,
        bucket.pressed(remaining, budget).burst == bucket.burst,
        bucket.pressed(remaining, budget).last == bucket.last,
        bucket.pressed(remaining, budget).tokens == bucket.tokens,
{
    let headroom = Ratio { num: (remaining * 100) as i64, den: budget };
    let warn = Ratio { num: bucket.warn as i64, den: 1 };
    let critical = Ratio { num: bucket.critical as i64, den: 1 };
    law_level_by_thresholds(headroom, warn, critical);
    assert(headroom.num == 100 * remaining);
    assert(headroom.num * critical.den == 100 * remaining);
    assert(headroom.num * warn.den == 100 * remaining);
    assert(critical.num * headroom.den == bucket.critical * budget);
    assert(warn.num * headroom.den == bucket.warn * budget);
}

/// The four paces: full, half, a quarter, an eighth.
pub proof fn law_paces(level: PressureLevel)
    ensures
        level.multiplier().num == 1,
        level is Healthy ==> level.eighths() == 8 && level.multiplier().den == 1,
        level is Warn ==> level.eighths() == 4 && level.multiplier().den == 2,
        level is Critical ==> level.eighths() == 2 && level.multiplier().den == 4,
        level is Emergency ==> level.eighths() == 1 && level.multiplier().den == 8,
{
}

/// A limit report sets the limit, and nothing but the limit, to what it says,
/// unless it says zero.
pub proof fn law_limit_after_report(bucket: BucketModel, total: u32)
    ensures
        bucket.limited(total).hourly == if total == 0 {
            bucket.hourly as int
        } else {
            total * bucket.scale
        },
        bucket.limited(total).quota == bucket.quota,
        bucket.limited(total).scale == bucket.scale,
        bucket.limited(total).warn == bucket.warn,
        bucket.limited(total).critical == bucket.critical,
        bucket.limited(total).jitter == bucket.jitter,
        bucket.limited(total).burst == bucket.burst,
        bucket.limited(total).level == bucket.level,
        bucket.limited(total).last == bucket.last,
        bucket.limited(total).tokens == bucket.tokens,
{
}

/// What is earned: `quota * limit * multiplier` tokens per hour of the time that
/// passed, up to the burst. One token is an hour's nanoseconds, in eighths, times
/// the two denominators. A clock that has not moved on earns nothing.
pub proof fn law_earned(bucket: BucketModel, now: nat)
    requires
        bucket.tokens <= bucket.burst * (bucket.quota.den * bucket.scale * 28_800_000_000_000),
        bucket.quota.num >= 0,
    ensures
        ({
            let token = bucket.quota.den * bucket.scale * 28_800_000_000_000;
            let passed = if now > bucket.last {
                now - bucket.last
            } else {
                0
            };
            let pace = match bucket.level {
                PressureLevel::Healthy => 8int,
                PressureLevel::Warn => 4int,
                PressureLevel::Critical => 2int,
                PressureLevel::Emergency => 1int,
            };
            let due = bucket.tokens + passed * (bucket.quota.num * bucket.hourly * pace);
            let after = bucket.replenished(now);
            &&& after.tokens == if due <= bucket.burst * token {
                due
            } else {
                bucket.burst * token
            }
            &&& after.last == if now > bucket.last {
                now
            } else {
                bucket.last
            }
            &&& after.quota == bucket.quota
            &&& after.scale == bucket.scale
            &&& after.hourly == bucket.hourly
            &&& after.warn == bucket.warn
            &&& after.critical == bucket.critical
            &&& after.jitter == bucket.jitter
            &&& after.burst == bucket.burst
            &&& after.level == bucket.level
        }),
{
    let token = bucket.quota.den * bucket.scale * 28_800_000_000_000;
    assert(token >= 0) by (nonlinear_arith)
        requires
            token == bucket.quota.den * bucket.scale * 28_800_000_000_000,
            bucket.quota.den >= 0,
            bucket.scale >= 0,
    ;
    assert(bucket.cost() == token);
    assert(bucket.capacity() == bucket.burst * token);
    let passed = if now > bucket.last {
        now - bucket.last
    } else {
        0
    };
    let rate = bucket.rate() as int;
    assert(passed * rate >= 0) by (nonlinear_arith)
        requires
            passed >= 0,
            rate >= 0,
    ;
    assert(0 * rate == 0) by (nonlinear_arith);
}

/// A request takes one whole token where one is there once what is due is earned,
/// and takes nothing otherwise; it changes nothing else.
pub proof fn law_request_takes_one_token(bucket: BucketModel, now: nat)
    ensures
        ({
            let token = bucket.quota.den * bucket.scale * 28_800_000_000_000;
            let earned = bucket.replenished(now);
            let after = bucket.requested(now);
            &&& bucket.grants(now) <==> earned.tokens >= token
            &&& earned.has_token() <==> earned.tokens >= token
            &&& after.tokens == if earned.tokens >= token {
                earned.tokens - token
            } else {
                earned.tokens as int
            }
            &&& after.last == earned.last
            &&& after.quota == bucket.quota
            &&& after.scale == bucket.scale
            &&& after.hourly == bucket.hourly
            &&& after.warn == bucket.warn
            &&& after.critical == bucket.critical
            &&& after.jitter == bucket.jitter
            &&& after.burst == bucket.burst
            &&& after.level == bucket.level
        }),
{
}

/// A token is granted exactly when the tokens held and those earned since make up
/// a whole one.
pub proof fn law_granted_when_due(bucket: BucketModel, now: nat)
    requires
        bucket.wf(),
        now >= bucket.last,
    ensures
        bucket.grants(now) <==> bucket.tokens + (now - bucket.last) * (bucket.quota.num
            * bucket.hourly * (match bucket.level {
            PressureLevel::Healthy => 8int,
            PressureLevel::Warn => 4int,
            PressureLevel::Critical => 2int,
            PressureLevel::Emergency => 1int,
        })) >= bucket.quota.den * bucket.scale * 28_800_000_000_000,
{
    law_earned(bucket, now);
    law_request_takes_one_token(bucket, now);
    let token = bucket.quota.den * bucket.scale * 28_800_000_000_000;
    let b = bucket.burst as int;
    assert(token >= 0) by (nonlinear_arith)
        requires
            token == bucket.quota.den * bucket.scale * 28_800_000_000_000,
            bucket.quota.den >= 0,
            bucket.scale >= 0,
    ;
    assert(b * token >= token) by (nonlinear_arith)
        requires
            b >= 1,
            token >= 0,
    ;
    assert(0 * (bucket.rate() as int) == 0) by (nonlinear_arith);
}

/// The nominal wait is the shortest time, in whole nanoseconds, in which the rest
/// of a token is earned.
pub proof fn law_nominal_wait_is_shortest(bucket: BucketModel)
    requires
        bucket.wf(),
        bucket.tokens < bucket.quota.den * bucket.scale * 28_800_000_000_000,
    ensures
        ({
            let token = bucket.quota.den * bucket.scale * 28_800_000_000_000;
            let earned = bucket.quota.num * bucket.hourly * (match bucket.level {
                PressureLevel::Healthy => 8int,
                PressureLevel::Warn => 4int,
                PressureLevel::Critical => 2int,
                PressureLevel::Emergency => 1int,
            });
            let wait = bucket.nominal_wait() as int;
            &&& wait >= 1
            &&& bucket.tokens + wait * earned >= token
            &&& bucket.tokens + (wait - 1) * earned < token
        }),
{
    let wait = bucket.nominal_wait();
    let r = bucket.rate() as int;
    let need = bucket.cost() - bucket.tokens;
    lemma_positive_rate(bucket);
    assert(wait == (need + r - 1) / r);
    assert(wait >= 1 && wait * r >= need && (wait - 1) * r < need) by (nonlinear_arith)
        requires
            wait == (need + r - 1) / r,
            r >= 1,
            need >= 1,
    ;
}

/// Jitter moves a wait by at most its share of the wait, to the nanosecond; without
/// jitter it moves nothing.
pub proof fn law_spread_is_share_of_wait(bucket: BucketModel)
    requires
        bucket.jitter.unit(),
    ensures
        bucket.spread() * bucket.jitter.den <= bucket.nominal_wait() * bucket.jitter.num,
        bucket.nominal_wait() * bucket.jitter.num < (bucket.spread() + 1) * bucket.jitter.den,
        bucket.spread() <= bucket.nominal_wait(),
        bucket.jitter.num == 0 ==> bucket.spread() == 0,
{
    let w = bucket.nominal_wait() as int;
    let n = bucket.jitter.num as int;
    let d = bucket.jitter.den as int;
    let p = w * n;
    assert(p >= 0) by (nonlinear_arith)
        requires
            p == w * n,
            w >= 0,
            n >= 0,
    ;
    let s = bucket.spread() as int;
    assert(s == p / d);
    assert(s * d <= p < (s + 1) * d) by (nonlinear_arith)
        requires
            s == p / d,
            d > 0,
            p >= 0,
    ;
    assert(s <= w) by (nonlinear_arith)
        requires
            s * d <= p,
            p == w * n,
            n <= d,
            d > 0,
            w >= 0,
    ;
    assert(n == 0 ==> p == 0) by (nonlinear_arith)
        requires
            p == w * n,
    ;
    assert(p == 0 ==> s == 0) by (nonlinear_arith)
        requires
            s * d <= p,
            p < (s + 1) * d,
            d > 0,
    ;
}

/// A wait is the nominal one moved by a number that was drawn between minus the
/// spread and the spread; without jitter it is the nominal one.
pub proof fn law_jitter_is_drawn(bucket: BucketModel, nanos: u128)
    requires
        bucket.waits(nanos),
    ensures
        bucket.jitter.num > 0 ==> drawn(
            (-bucket.spread()) as i128,
            bucket.spread() as i128,
            (nanos - bucket.nominal_wait()) as i128,
        ),
        bucket.jitter.num <= 0 ==> nanos == bucket.nominal_wait(),
{
}

/// The rates are told as they are: the target is `quota * limit / 60`, where the
/// limit is `hourly / scale`, and the effective rate that, times the pace.
pub proof fn law_rates_told(bucket: BucketModel)
    requires
        bucket.wf(),
    ensures
        bucket.full_rate() == bucket.quota.num * bucket.hourly,
        bucket.rate() == bucket.quota.num * bucket.hourly * (match bucket.level {
            PressureLevel::Healthy => 8int,
            PressureLevel::Warn => 4int,
            PressureLevel::Critical => 2int,
            PressureLevel::Emergency => 1int,
        }),
        bucket.target().num == bucket.quota.num * bucket.hourly,
        bucket.target().den == bucket.quota.den * bucket.scale * 60,
        bucket.effective().num == bucket.rate(),
        bucket.effective().den == bucket.quota.den * bucket.scale * 480,
{
    lemma_unit_bounds(bucket.quota.den, bucket.scale as u32);
    lemma_rate_bounds(
        bucket.quota.num as int,
        bucket.hourly as int,
        bucket.level.eighths() as int,
    );
}

/// A bucket is refused for the first thing wrong with its arguments, and for
/// nothing else.
pub proof fn law_bucket_arguments(
    quota: Ratio,
    rph: Ratio,
    warn: u8,
    critical: u8,
    jitter: Ratio,
    burst: u32,
)
    ensures
        ({
            let refusal = bucket_refusal(quota, rph, warn, critical, jitter, burst);
            let quota_ok = quota.den > 0 && quota.num > 0 && quota.num <= quota.den;
            let rph_ok = rph.den > 0 && rph.num > 0;
            let jitter_ok = jitter.den > 0 && jitter.num >= 0 && jitter.num <= jitter.den;
            &&& refusal is None <==> quota_ok && rph_ok && jitter_ok && burst >= 1 && critical
                <= warn
            &&& !quota_ok ==> refusal == Some("quota_pct must be in (0, 1]"@)
            &&& quota_ok && !rph_ok ==> refusal == Some("initial_rph must be > 0 and finite"@)
            &&& quota_ok && rph_ok && !jitter_ok ==> refusal == Some(
                "jitter_pct must be in [0, 1]"@,
            )
            &&& quota_ok && rph_ok && jitter_ok && burst == 0 ==> refusal == Some(
                "burst must be >= 1"@,
            )
            &&& quota_ok && rph_ok && jitter_ok && burst >= 1 && critical > warn ==> refusal
                == Some("pressure_critical_pct must be <= pressure_warn_pct"@)
        }),
{
}

/// A fresh bucket goes by its arguments, is healthy, and holds its whole burst.
pub proof fn law_fresh_bucket(
    quota: Ratio,
    rph: Ratio,
    warn: u8,
    critical: u8,
    jitter: Ratio,
    burst: u32,
)
    requires
        quota.den > 0,
        rph.den > 0,
        rph.num > 0,
    ensures
        ({
            let bucket = fresh_bucket(quota, rph, warn, critical, jitter, burst);
            &&& bucket.quota == quota
            &&& bucket.scale == rph.den
            &&& bucket.hourly == rph.num
            &&& bucket.warn == warn
            &&& bucket.critical == critical
            &&& bucket.jitter == jitter
            &&& bucket.burst == burst
            &&& bucket.level == PressureLevel::Healthy
            &&& bucket.last == 0
            &&& bucket.tokens == burst * (quota.den * rph.den * 28_800_000_000_000)
        }),
{
}

} // verus!
