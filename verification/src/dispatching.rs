//! What holds of a worker over any course of events.
use serde_json::Error as JsonError;
use vstd::prelude::*;

use crate::bucket::{lemma_rate_bounds, BucketModel, PressureLevel};
use crate::config::{law_target_rate, Config};
use crate::error::Error;
use crate::metrics::MetricUpdate;
use crate::pacing::{
    law_level_after_report, law_nominal_wait_is_shortest, law_spread_is_share_of_wait,
    lemma_request_step,
};
use crate::worker::{
    fresh_worker, last_token, result_subject, Action, Answer, Event, Stage, Turn, WorkerModel,
    REST_NANOS,
};

verus! {

/// The worker after a course of events.
pub open spec fn worker_run(worker: WorkerModel, events: Seq<Event>) -> WorkerModel
    decreases events.len(),
{
    if events.len() == 0 {
        worker
    } else {
        worker_run(worker, events.drop_last()).after(events.last())
    }
}

/// The event makes the worker dispatch a request.
pub open spec fn sends(worker: WorkerModel, event: Event) -> bool {
    worker.stage is Decoding && event is Decoded
}

/// The event ends a request that is with the upstream.
pub open spec fn ends_request(worker: WorkerModel, event: Event) -> bool {
    worker.stage is Dispatching && (event is Answered || event is DispatchFailed
        || event is Shutdown)
}

/// The event brings a job.
pub open spec fn receives(worker: WorkerModel, event: Event) -> bool {
    worker.stage is Fetching && (event matches Event::Fetched(Some(_)))
}

pub open spec fn one_if(b: bool) -> nat {
    if b {
        1
    } else {
        0
    }
}

/// Requests dispatched over a course of events.
pub open spec fn dispatches(worker: WorkerModel, events: Seq<Event>) -> nat
    decreases events.len(),
{
    if events.len() == 0 {
        0
    } else {
        dispatches(worker, events.drop_last()) + one_if(
            sends(worker_run(worker, events.drop_last()), events.last()),
        )
    }
}

/// Requests that ended over a course of events.
pub open spec fn completions(worker: WorkerModel, events: Seq<Event>) -> nat
    decreases events.len(),
{
    if events.len() == 0 {
        0
    } else {
        completions(worker, events.drop_last()) + one_if(
            ends_request(worker_run(worker, events.drop_last()), events.last()),
        )
    }
}

/// Jobs received over a course of events.
pub open spec fn jobs(worker: WorkerModel, events: Seq<Event>) -> nat
    decreases events.len(),
{
    if events.len() == 0 {
        0
    } else {
        jobs(worker, events.drop_last()) + one_if(
            receives(worker_run(worker, events.drop_last()), events.last()),
        )
    }
}

/// No answer reports a total budget above `limit`.
pub open spec fn totals_up_to(events: Seq<Event>, limit: nat) -> bool {
    forall|i: int|
        0 <= i < events.len() ==> (#[trigger] events[i] matches Event::Answered(answer) ==> (
        answer.total matches Some(total) ==> total <= limit))
}

/// Units of a token that is taken and not yet used for a dispatch.
pub open spec fn in_hand(worker: WorkerModel) -> nat {
    if worker.stage is Decoding {
        worker.bucket.cost()
    } else {
        0
    }
}

proof fn lemma_step_frame(worker: WorkerModel, event: Event)
    ensures
        worker.after(event).fixed == worker.fixed,
        worker.fixed ==> worker.after(event).bucket.hourly == worker.bucket.hourly,
        worker.after(event).bucket.quota == worker.bucket.quota,
        worker.after(event).bucket.scale == worker.bucket.scale,
        worker.after(event).bucket.burst == worker.bucket.burst,
        worker.after(event).bucket.cost() == worker.bucket.cost(),
        worker.after(event).bucket.last >= worker.bucket.last,
        !(event is Clock) ==> {
            &&& worker.after(event).bucket.tokens == worker.bucket.tokens
            &&& worker.after(event).bucket.last == worker.bucket.last
        },
{
}

proof fn lemma_run_frame(worker: WorkerModel, events: Seq<Event>)
    ensures
        worker_run(worker, events).fixed == worker.fixed,
        worker.fixed ==> worker_run(worker, events).bucket.hourly == worker.bucket.hourly,
        worker_run(worker, events).bucket.quota == worker.bucket.quota,
        worker_run(worker, events).bucket.scale == worker.bucket.scale,
        worker_run(worker, events).bucket.burst == worker.bucket.burst,
        worker_run(worker, events).bucket.cost() == worker.bucket.cost(),
        worker_run(worker, events).bucket.last >= worker.bucket.last,
    decreases events.len(),
{
    if events.len() > 0 {
        lemma_run_frame(worker, events.drop_last());
        lemma_step_frame(worker_run(worker, events.drop_last()), events.last());
    }
}

/// One step moves holdings and dispatches by what was earned.
proof fn lemma_step_bounded(worker: WorkerModel, event: Event)
    ensures
        one_if(sends(worker, event)) * worker.bucket.cost() + worker.after(event).bucket.tokens
            + in_hand(worker.after(event)) <= worker.bucket.tokens + in_hand(worker)
            + worker.bucket.rate() * (worker.after(event).bucket.last - worker.bucket.last),
{
    let c = worker.bucket.cost() as int;
    assert(0 * c == 0) by (nonlinear_arith);
    assert(1 * c == c) by (nonlinear_arith);
    lemma_step_frame(worker, event);
    assert(worker.bucket.rate() * 0 == 0) by (nonlinear_arith);
    if let Event::Clock(now) = event {
        lemma_request_step(worker.bucket, now as nat);
    }
}

/// Requests dispatched never exceed the tokens held at the start and what the
/// highest rate of the course earns in its time: no dispatch goes without a token
/// of its own.
pub proof fn law_dispatches_bounded(worker: WorkerModel, events: Seq<Event>, peak: nat)
    requires
        forall|i: int|
            0 <= i <= events.len() ==> (#[trigger] worker_run(
                worker,
                events.take(i),
            )).bucket.rate() <= peak,
    ensures
        worker_run(worker, events).bucket.last >= worker.bucket.last,
        dispatches(worker, events) * worker.bucket.cost() + worker_run(worker, events).bucket.tokens
            + in_hand(worker_run(worker, events)) <= worker.bucket.tokens + in_hand(worker) + peak
            * (worker_run(worker, events).bucket.last - worker.bucket.last),
    decreases events.len(),
{
    let c = worker.bucket.cost() as int;
    assert(0 * c == 0) by (nonlinear_arith);
    assert(peak * 0 == 0) by (nonlinear_arith);
    if events.len() > 0 {
        let before = events.drop_last();
        let mid = worker_run(worker, before);
        let end = worker_run(worker, events);
        assert forall|i: int| 0 <= i <= before.len() implies (#[trigger] worker_run(
            worker,
            before.take(i),
        )).bucket.rate() <= peak by {
            assert(before.take(i) =~= events.take(i));
        }
        law_dispatches_bounded(worker, before, peak);
        lemma_run_frame(worker, before);
        lemma_step_frame(mid, events.last());
        lemma_step_bounded(mid, events.last());
        assert(before =~= events.take(before.len() as int));
        let n = dispatches(worker, before) as int;
        let one = one_if(sends(mid, events.last())) as int;
        assert((n + one) * c == n * c + one * c) by (nonlinear_arith);
        let dt = end.bucket.last - mid.bucket.last;
        let r = mid.bucket.rate() as int;
        let p = peak as int;
        assert(r * dt <= p * dt) by (nonlinear_arith)
            requires
                r <= p,
                dt >= 0,
        ;
        assert(p * (end.bucket.last - worker.bucket.last) == p * (mid.bucket.last
            - worker.bucket.last) + p * dt) by (nonlinear_arith)
            requires
                dt == end.bucket.last - mid.bucket.last,
        ;
    }
}

proof fn lemma_informed_hourly(worker: WorkerModel, answer: Answer, limit: nat)
    requires
        worker.bucket.hourly <= limit * worker.bucket.scale,
        answer.total matches Some(total) ==> total <= limit,
    ensures
        worker.informed(answer).bucket.hourly <= limit * worker.bucket.scale,
{
    if let Some(total) = answer.total {
        let t = total as int;
        let l = limit as int;
        let s = worker.bucket.scale as int;
        assert(t * s <= l * s) by (nonlinear_arith)
            requires
                t <= l,
                s >= 0,
        ;
    }
}

proof fn lemma_run_hourly(worker: WorkerModel, events: Seq<Event>, limit: nat)
    requires
        worker.bucket.hourly <= limit * worker.bucket.scale,
        totals_up_to(events, limit),
    ensures
        worker_run(worker, events).bucket.hourly <= limit * worker.bucket.scale,
    decreases events.len(),
{
    if events.len() > 0 {
        let before = events.drop_last();
        assert forall|i: int| 0 <= i < before.len() implies (
        #[trigger] before[i] matches Event::Answered(answer) ==> (
        answer.total matches Some(total) ==> total <= limit)) by {
            assert(before[i] == events[i]);
        }
        lemma_run_hourly(worker, before, limit);
        lemma_run_frame(worker, before);
        let mid = worker_run(worker, before);
        assert(events.last() == events[events.len() - 1]);
        if let Event::Answered(answer) = events.last() {
            lemma_informed_hourly(mid, answer, limit);
        }
    }
}

/// The worker never dispatches faster than its share of the upstream's limit,
/// however fast jobs arrive: from its start on, in any course of events in which
/// the limit never exceeds `limit` per hour, the requests dispatched are at most
/// the burst and `quota * limit` per hour of the time that passed, which is
/// counted in nanoseconds. With a fixed rate, that rate is the limit, the quota is
/// the whole of it, and reported limits play no part.
pub proof fn law_dispatch_rate(
    config: Config,
    initial_budget: u32,
    events: Seq<Event>,
    limit: nat,
)
    requires
        config.bucket_refusal() is None,
        config.bucket_rph().num <= limit,
        config.rate_limit.requests_per_minute_override is Some || totals_up_to(events, limit),
    ensures
        dispatches(fresh_worker(config, initial_budget), events) * (config.bucket_quota().den
            * 3_600_000_000_000) <= config.rate_limit.burst * (config.bucket_quota().den
            * 3_600_000_000_000) + config.bucket_quota().num * limit * worker_run(
            fresh_worker(config, initial_budget),
            events,
        ).bucket.last,
{
    let worker = fresh_worker(config, initial_budget);
    let num = config.bucket_quota().num as int;
    let den = config.bucket_quota().den as int;
    let l = limit as int;
    let peak: nat = (num * (l * 1) * 8) as nat;
    assert(num * (l * 1) * 8 >= 0) by (nonlinear_arith)
        requires
            num >= 0,
            l >= 0,
    ;
    assert(limit * worker.bucket.scale == l * 1);
    assert forall|i: int| 0 <= i <= events.len() implies (#[trigger] worker_run(
        worker,
        events.take(i),
    )).bucket.rate() <= peak by {
        let sofar = events.take(i);
        lemma_run_frame(worker, sofar);
        if !worker.fixed {
            assert forall|j: int| 0 <= j < sofar.len() implies (
            #[trigger] sofar[j] matches Event::Answered(answer) ==> (
            answer.total matches Some(total) ==> total <= limit)) by {
                assert(sofar[j] == events[j]);
            }
            lemma_run_hourly(worker, sofar, limit);
        }
        let m = worker_run(worker, sofar).bucket;
        let h = m.hourly as int;
        let e = m.level.eighths() as int;
        assert(num * h * e <= num * (l * 1) * 8) by (nonlinear_arith)
            requires
                num >= 0,
                0 <= h <= l * 1,
                0 <= e <= 8,
        ;
    }
    law_dispatches_bounded(worker, events, peak);
    let n = dispatches(worker, events) as int;
    let b = config.rate_limit.burst as int;
    let dt = worker_run(worker, events).bucket.last as int;
    let cost = worker.bucket.cost() as int;
    let hour = den * 3_600_000_000_000;
    assert(cost == hour * 8) by (nonlinear_arith)
        requires
            cost == den * 1 * 28_800_000_000_000,
            hour == den * 3_600_000_000_000,
    ;
    assert(n * cost == (n * hour) * 8) by (nonlinear_arith)
        requires
            cost == hour * 8,
    ;
    assert(b * cost == (b * hour) * 8) by (nonlinear_arith)
        requires
            cost == hour * 8,
    ;
    assert(peak * dt == (num * l * dt) * 8) by (nonlinear_arith)
        requires
            peak == num * (l * 1) * 8,
    ;
}

/// At most one request is with the upstream: those dispatched and those ended
/// differ by the one that is under way.
pub proof fn law_one_in_flight(worker: WorkerModel, events: Seq<Event>)
    ensures
        dispatches(worker, events) + one_if(worker.stage is Dispatching) == completions(
            worker,
            events,
        ) + one_if(worker_run(worker, events).stage is Dispatching),
    decreases events.len(),
{
    if events.len() > 0 {
        law_one_in_flight(worker, events.drop_last());
    }
}

/// A job is dispatched at most once before it is fetched anew.
pub proof fn law_one_dispatch_per_job(worker: WorkerModel, events: Seq<Event>)
    ensures
        dispatches(worker, events) <= jobs(worker, events) + one_if(
            worker.stage is AwaitingToken || worker.stage is Decoding,
        ),
{
    lemma_jobs(worker, events);
}

proof fn lemma_jobs(worker: WorkerModel, events: Seq<Event>)
    ensures
        dispatches(worker, events) + one_if(
            worker_run(worker, events).stage is AwaitingToken || worker_run(
                worker,
                events,
            ).stage is Decoding,
        ) <= jobs(worker, events) + one_if(
            worker.stage is AwaitingToken || worker.stage is Decoding,
        ),
    decreases events.len(),
{
    if events.len() > 0 {
        lemma_jobs(worker, events.drop_last());
    }
}

/// Work goes in order: a request is decoded only once a token is taken,
/// dispatched only once it is decoded, a result published only once the upstream
/// answered, and a job acknowledged only once its result is published. A job is
/// handed back only when its dispatch failed.
pub proof fn law_work_in_order(worker: WorkerModel, event: Event, turn: Turn)
    requires
        worker.calls_for(event, turn),
    ensures
        turn.action is Decode ==> (event matches Event::Clock(now) && worker.bucket.grants(
            now as nat,
        ) && worker.after(event).bucket == worker.bucket.replenished(now as nat).spent()),
        turn.action is Dispatch <==> sends(worker, event),
        turn.action is Publish <==> worker.stage is Dispatching && event is Answered,
        turn.action is Ack <==> worker.stage is Publishing && event is Published,
        turn.action is Nak <==> worker.stage is Dispatching && event is DispatchFailed,
{
}

/// Every dispatch is observable: the end of a request, by an answer or by a
/// failure, is counted once, and nothing else is counted.
pub proof fn law_every_dispatch_counted(worker: WorkerModel, event: Event, turn: Turn)
    requires
        worker.calls_for(event, turn),
    ensures
        worker.stage is Dispatching && (event is Answered || event is DispatchFailed) ==> {
            &&& turn.updates@.len() >= 1
            &&& turn.updates@[0] is Counted
            &&& forall|i: int| 1 <= i < turn.updates@.len() ==> !(#[trigger] turn.updates@[i]
                is Counted)
        },
        !(worker.stage is Dispatching && (event is Answered || event is DispatchFailed)) ==> forall|
            i: int,
        |
            0 <= i < turn.updates@.len() ==> !(#[trigger] turn.updates@[i] is Counted),
{
}

/// Failures are not fatal: only a request to stop stops the worker, and a rest
/// after a failure is followed by the next fetch.
pub proof fn law_only_shutdown_stops(worker: WorkerModel, event: Event, turn: Turn)
    requires
        worker.calls_for(event, turn),
    ensures
        worker.after(event).stage is Stopped <==> worker.stage is Stopped || event is Shutdown,
        turn.action is Stop <==> worker.after(event).stage is Stopped,
        turn.action is Rest <==> worker.after(event).stage is Resting && !(
        worker.stage is Resting),
        worker.stage is Resting && event is Rested ==> turn.action is Fetch,
{
}

/// A fixed rate stays: with an override, the target rate is the override at the
/// start and after any course of events, whatever limits are reported.
pub proof fn law_fixed_rate_stays(config: Config, initial_budget: u32, events: Seq<Event>)
    requires
        config.bucket_refusal() is None,
        config.rate_limit.requests_per_minute_override is Some,
    ensures
        worker_run(fresh_worker(config, initial_budget), events).bucket.target()
            == config.bucket().target(),
        config.target().same_as(
            worker_run(fresh_worker(config, initial_budget), events).bucket.target(),
        ),
{
    lemma_run_frame(fresh_worker(config, initial_budget), events);
    law_target_rate(config);
}

/// The bucket follows what responses report: the last total other than zero is
/// the limit it goes by, unless its rate is fixed, and headroom is measured
/// against that total.
pub proof fn law_follows_reports(worker: WorkerModel, answer: Answer)
    ensures
        answer.total matches Some(total) ==> total != 0 ==> {
            &&& worker.informed(answer).bucket.hourly == if worker.fixed {
                worker.bucket.hourly as int
            } else {
                total * worker.bucket.scale
            }
            &&& worker.informed(answer).budget() == total
            &&& answer.remaining matches Some(remaining) ==> worker.informed(answer).bucket.level
                == worker.bucket.pressed(remaining, total).level
        },
        (answer.total is None || answer.total == Some(0u32)) ==> {
            &&& worker.informed(answer).bucket.hourly == worker.bucket.hourly
            &&& worker.informed(answer).budget() == worker.budget()
            &&& answer.remaining matches Some(remaining) ==> worker.informed(answer).bucket.level
                == worker.bucket.pressed(remaining, worker.budget()).level
        },
        answer.remaining is None ==> worker.informed(answer).bucket.level == worker.bucket.level,
{
}

proof fn lemma_last_token_plain(subject: Seq<char>)
    ensures
        !last_token(subject).contains('.'),
    decreases subject.len(),
{
    if subject.len() > 0 && subject.last() != '.' {
        lemma_last_token_plain(subject.drop_last());
        let rest = last_token(subject.drop_last());
        let token = last_token(subject);
        assert forall|i: int| 0 <= i < token.len() implies token[i] != '.' by {
            if i < rest.len() {
                assert(token[i] == rest[i]);
                assert(rest.contains(rest[i]));
            }
        }
    }
}

proof fn lemma_token_of_join(prefix: Seq<char>, token: Seq<char>)
    requires
        !token.contains('.'),
    ensures
        last_token(prefix + "."@ + token) == token,
    decreases token.len(),
{
    reveal_strlit(".");
    let whole = prefix + "."@ + token;
    if token.len() == 0 {
        assert(whole.last() == '.');
        assert(last_token(whole) =~= token);
    } else {
        let rest = token.drop_last();
        assert(token.contains(token.last()));
        assert(!rest.contains('.')) by {
            if rest.contains('.') {
                let i = choose|i: int| 0 <= i < rest.len() && rest[i] == '.';
                assert(token[i] == '.');
            }
        }
        assert(whole.drop_last() =~= prefix + "."@ + rest);
        assert(whole.last() == token.last());
        lemma_token_of_join(prefix, rest);
        assert(last_token(whole) =~= token);
    }
}

/// A result is published under the key of its job: the last token of its subject
/// is that of the job's subject.
pub proof fn law_result_keeps_key(results: Seq<char>, subject: Seq<char>)
    ensures
        last_token(result_subject(results, subject)) == last_token(subject),
{
    lemma_last_token_plain(subject);
    lemma_token_of_join(results, last_token(subject));
}

/// The subject of the job in hand, where one is in hand.
pub open spec fn subject_in_hand(worker: WorkerModel) -> Option<Seq<char>> {
    match worker.stage {
        Stage::AwaitingToken(subject) => Some(subject),
        Stage::Decoding(subject) => Some(subject),
        Stage::Dispatching(subject) => Some(subject),
        _ => None,
    }
}

/// The job in hand keeps its identity: whatever happens, a worker that has a job in
/// hand afterwards has the one it had before or, where it had none, the one just
/// fetched. A job that waits for its token is the same job when the wait is over.
pub proof fn law_job_keeps_subject(worker: WorkerModel, event: Event)
    ensures
        subject_in_hand(worker.after(event)) matches Some(subject) ==> match subject_in_hand(
            worker,
        ) {
            Some(before) => subject == before,
            None => worker.stage is Fetching && (event matches Event::Fetched(Some(fetched))
                && fetched@ == subject),
        },
        worker.stage is Fetching ==> (event matches Event::Fetched(Some(fetched))
            ==> subject_in_hand(worker.after(event)) == Some(fetched@)),
        worker.after(event).results == worker.results,
        worker.after(event).initial_budget == worker.initial_budget,
        worker.after(event).fixed == worker.fixed,
{
}

proof fn lemma_same_job(worker: WorkerModel, events: Seq<Event>, received: int, subject: Seq<char>)
    requires
        0 <= received < events.len(),
        worker_run(worker, events.take(received)).stage is Fetching,
        events[received] matches Event::Fetched(Some(fetched)) && fetched@ == subject,
        forall|i: int|
            received < i < events.len() ==> !receives(
                #[trigger] worker_run(worker, events.take(i)),
                events[i],
            ),
    ensures
        worker_run(worker, events).results == worker.results,
        subject_in_hand(worker_run(worker, events)) matches Some(now) ==> now == subject,
    decreases events.len(),
{
    let before = events.drop_last();
    let mid = worker_run(worker, before);
    lemma_results_stay(worker, events);
    law_job_keeps_subject(mid, events.last());
    assert(before =~= events.take(events.len() - 1));
    if received < events.len() - 1 {
        assert(before.take(received) =~= events.take(received));
        assert forall|i: int| received < i < before.len() implies !receives(
            #[trigger] worker_run(worker, before.take(i)),
            before[i],
        ) by {
            assert(before.take(i) =~= events.take(i));
            assert(!receives(worker_run(worker, events.take(i)), events[i]));
        }
        lemma_same_job(worker, before, received, subject);
        assert(!receives(worker_run(worker, events.take(events.len() - 1)), events.last()));
    }
}

proof fn lemma_results_stay(worker: WorkerModel, events: Seq<Event>)
    ensures
        worker_run(worker, events).results == worker.results,
    decreases events.len(),
{
    if events.len() > 0 {
        lemma_results_stay(worker, events.drop_last());
        law_job_keeps_subject(worker_run(worker, events.drop_last()), events.last());
    }
}

/// A result goes out under the key of the job it answers, however long the job had
/// to wait: over any course of events, where the job last received came on
/// `subject`, a result is published on the worker's result subject, a dot, and
/// what follows the last dot of `subject`, or all of it where it has none.
pub proof fn law_result_of_the_job_received(
    worker: WorkerModel,
    events: Seq<Event>,
    received: int,
    subject: Seq<char>,
    event: Event,
    turn: Turn,
)
    requires
        0 <= received < events.len(),
        worker_run(worker, events.take(received)).stage is Fetching,
        events[received] matches Event::Fetched(Some(fetched)) && fetched@ == subject,
        forall|i: int|
            received < i < events.len() ==> !receives(
                #[trigger] worker_run(worker, events.take(i)),
                events[i],
            ),
        worker_run(worker, events).calls_for(event, turn),
    ensures
        subject_in_hand(worker_run(worker, events)) matches Some(now) ==> now == subject,
        turn.action matches Action::Publish(to) ==> exists|dot: int|
            {
                &&& -1 <= dot < subject.len()
                &&& dot >= 0 ==> subject[dot] == '.'
                &&& forall|i: int| dot < i < subject.len() ==> subject[i] != '.'
                &&& to@ == worker.results.push('.') + #[trigger] subject.skip(dot + 1)
            },
{
    lemma_same_job(worker, events, received, subject);
    if let Action::Publish(to) = turn.action {
        law_result_subject(worker.results, subject);
    }
}

/// What the result subject of a job is, letter by letter: the results' own subject,
/// a dot, and the part of the job's subject behind its last dot, or all of it.
pub proof fn law_result_subject(results: Seq<char>, subject: Seq<char>)
    ensures
        exists|dot: int|
            {
                &&& -1 <= dot < subject.len()
                &&& dot >= 0 ==> subject[dot] == '.'
                &&& forall|i: int| dot < i < subject.len() ==> subject[i] != '.'
                &&& result_subject(results, subject) == results.push('.') + #[trigger] subject.skip(
                    dot + 1,
                )
            },
{
    reveal_strlit(".");
    lemma_token_is_tail(subject);
    let token = last_token(subject);
    let dot = subject.len() - token.len() - 1;
    assert(subject.skip(dot + 1) == token);
    assert forall|i: int| dot < i < subject.len() implies subject[i] != '.' by {
        assert(subject[i] == token[i - dot - 1]);
        assert(token.contains(token[i - dot - 1]));
    }
    assert(result_subject(results, subject) =~= results.push('.') + subject.skip(dot + 1));
}

proof fn lemma_token_is_tail(subject: Seq<char>)
    ensures
        last_token(subject).len() <= subject.len(),
        last_token(subject) == subject.skip(subject.len() - last_token(subject).len()),
        last_token(subject).len() < subject.len() ==> subject[subject.len() - last_token(
            subject,
        ).len() - 1] == '.',
        !last_token(subject).contains('.'),
    decreases subject.len(),
{
    lemma_last_token_plain(subject);
    if subject.len() > 0 && subject.last() != '.' {
        let rest = subject.drop_last();
        lemma_token_is_tail(rest);
        assert(last_token(subject) =~= subject.skip(subject.len() - last_token(subject).len()));
    } else {
        assert(last_token(subject) =~= subject.skip(subject.len() as int));
    }
}

/// Where each event leads. A job goes through a token, its decoding, the upstream,
/// the publication of its result and the acknowledgement, and the worker is back to
/// fetching; a job that the upstream fails goes straight to be handed back; any
/// other failure leads to a rest, and a rest to the next fetch. An event out of
/// turn leads nowhere.
pub proof fn law_where_events_lead(worker: WorkerModel, event: Event)
    ensures
        ({
            let next = worker.after(event).stage;
            let moves = match worker.stage {
                Stage::Fetching => (event matches Event::Fetched(Some(_))) || event is FetchFailed,
                Stage::AwaitingToken(_) => event is Clock,
                Stage::Decoding(_) => event is Decoded || event is DecodeFailed,
                Stage::Dispatching(_) => event is Answered || event is DispatchFailed,
                Stage::Publishing => event is Published || event is EncodeFailed
                    || event is PublishFailed,
                Stage::Acknowledging => event is Acknowledged || event is AcknowledgeFailed,
                Stage::Resting => event is Rested,
                Stage::Stopped => false,
            };
            &&& event is Shutdown ==> next is Stopped && worker.after(event).bucket
                == worker.bucket && worker.after(event).observed == worker.observed
            &&& !(event is Shutdown) && !moves ==> worker.after(event) == worker
            &&& moves ==> match event {
                Event::Fetched(_) => next is AwaitingToken,
                Event::Decoded => next is Dispatching,
                Event::Answered(_) => next is Publishing,
                Event::DispatchFailed => next is Acknowledging,
                Event::Published => next is Acknowledging,
                Event::Acknowledged => next is Fetching,
                Event::Rested => next is Fetching,
                Event::Clock(_) => next is Decoding || next is AwaitingToken,
                _ => next is Resting,
            }
        }),
{
}

/// Only a request for a token and an answer touch the bucket. The request takes a
/// whole token or none, and the job goes on exactly where it took one.
pub proof fn law_bucket_touched(worker: WorkerModel, event: Event)
    ensures
        !(worker.stage is AwaitingToken && event is Clock) && !(worker.stage is Dispatching
            && event is Answered) ==> worker.after(event).bucket == worker.bucket,
        !(worker.stage is Dispatching && event is Answered) ==> worker.after(event).observed
            == worker.observed,
        worker.stage is AwaitingToken ==> (event matches Event::Clock(now) ==> {
            let earned = worker.bucket.replenished(now as nat);
            let token = worker.bucket.quota.den * worker.bucket.scale * 28_800_000_000_000;
            let after = worker.after(event);
            &&& after.stage is Decoding <==> earned.tokens >= token
            &&& after.stage is AwaitingToken <==> earned.tokens < token
            &&& after.bucket == if earned.tokens >= token {
                BucketModel { tokens: (earned.tokens - token) as nat, ..earned }
            } else {
                earned
            }
        }),
        worker.stage is Dispatching ==> (event matches Event::Answered(answer) ==> {
            &&& worker.after(event).bucket == worker.informed(answer).bucket
            &&& worker.after(event).observed == worker.informed(answer).observed
        }),
{
}

/// An answer is taken in whole: the total, unless it is zero, is remembered and,
/// unless the rate is fixed, sets the limit; what remains, in percent of the total
/// last seen, or of the initial budget where none was, sets the level, whatever the
/// level was; and nothing else changes.
pub proof fn law_answer_taken_in(worker: WorkerModel, answer: Answer)
    ensures
        ({
            let after = worker.informed(answer);
            let told = answer.total is Some && answer.total != Some(0u32);
            let budget = match after.observed {
                Some(total) => total,
                None => worker.initial_budget,
            };
            &&& after.observed == if told {
                answer.total
            } else {
                worker.observed
            }
            &&& after.bucket.hourly == if told && !worker.fixed {
                answer.total.unwrap() * worker.bucket.scale
            } else {
                worker.bucket.hourly as int
            }
            &&& answer.remaining is None ==> after.bucket.level == worker.bucket.level
            &&& answer.remaining matches Some(remaining) ==> {
                let below_ten = 100 * remaining < 10 * budget;
                let below_critical = 100 * remaining < worker.bucket.critical * budget;
                let below_warn = 100 * remaining < worker.bucket.warn * budget;
                &&& budget == 0 ==> after.bucket.level is Healthy
                &&& budget > 0 ==> {
                    &&& after.bucket.level is Emergency <==> below_ten
                    &&& after.bucket.level is Critical <==> !below_ten && below_critical
                    &&& after.bucket.level is Warn <==> !below_ten && !below_critical && below_warn
                    &&& after.bucket.level is Healthy <==> !below_ten && !below_critical
                        && !below_warn
                }
            }
            &&& after.bucket == (BucketModel {
                hourly: after.bucket.hourly,
                level: after.bucket.level,
                ..worker.bucket
            })
            &&& after.stage == worker.stage
            &&& after.initial_budget == worker.initial_budget
            &&& after.fixed == worker.fixed
            &&& after.results == worker.results
        }),
{
    let rated = match answer.total {
        Some(total) => if worker.fixed {
            worker.bucket
        } else {
            worker.bucket.limited(total)
        },
        None => worker.bucket,
    };
    if let Some(remaining) = answer.remaining {
        law_level_after_report(rated, worker.bucket, remaining, worker.informed(answer).budget());
    }
}

/// Which action each event calls for. The driver fetches again after an empty
/// fetch, a job done and a rest; it waits, first not at all, until a token is
/// there, and then decodes; it rests after a failure of the broker or of JSON, and
/// stops when asked to.
pub proof fn law_actions(worker: WorkerModel, event: Event, turn: Turn)
    requires
        worker.calls_for(event, turn),
    ensures
        turn.action is Fetch <==> {
            ||| worker.stage is Fetching && (event matches Event::Fetched(None))
            ||| worker.stage is Acknowledging && event is Acknowledged
            ||| worker.stage is Resting && event is Rested
        },
        turn.action is Wait <==> worker.after(event).stage is AwaitingToken && (
        worker.stage is Fetching || event is Clock),
        worker.stage is Fetching ==> (turn.action matches Action::Wait(nanos) ==> nanos == 0),
        turn.action is Decode <==> worker.after(event).stage is Decoding && event is Clock
            && worker.stage is AwaitingToken,
        turn.action is Rest <==> {
            ||| worker.stage is Fetching && event is FetchFailed
            ||| worker.stage is Decoding && event is DecodeFailed
            ||| worker.stage is Publishing && (event is EncodeFailed || event is PublishFailed)
            ||| worker.stage is Acknowledging && event is AcknowledgeFailed
        },
        turn.action is Stop <==> worker.stage is Stopped || event is Shutdown,
        turn.action is Nothing ==> worker.after(event) == worker,
        turn.action matches Action::Rest(why) ==> match event {
            Event::FetchFailed(text) => why matches Error::Nats(said) && said@ == text@,
            Event::PublishFailed(text) => why matches Error::Nats(said) && said@ == text@,
            Event::AcknowledgeFailed(text) => why matches Error::Nats(said) && said@ == text@,
            Event::DecodeFailed(e) => why matches Error::Serde(said)
                && vstd::string::to_string_from_display_ensures::<JsonError>(&e, said),
            Event::EncodeFailed(e) => why matches Error::Serde(said)
                && vstd::string::to_string_from_display_ensures::<JsonError>(&e, said),
            _ => false,
        },
{
}

/// A wait for a token is the shortest time in which the rest of it is earned, give
/// or take the jitter's share of that time.
pub proof fn law_wait_asked_for(worker: WorkerModel, now: u64, turn: Turn, shortest: int)
    requires
        worker.bucket.wf(),
        worker.stage is AwaitingToken,
        worker.calls_for(Event::Clock(now), turn),
        turn.action is Wait,
        ({
            let bucket = worker.bucket.replenished(now as nat);
            let token = bucket.quota.den * bucket.scale * 28_800_000_000_000;
            let earned = bucket.quota.num * bucket.hourly * (match bucket.level {
                PressureLevel::Healthy => 8int,
                PressureLevel::Warn => 4int,
                PressureLevel::Critical => 2int,
                PressureLevel::Emergency => 1int,
            });
            &&& bucket.tokens + shortest * earned >= token
            &&& bucket.tokens + (shortest - 1) * earned < token
        }),
    ensures
        ({
            let asked = turn.action->Wait_0;
            let jitter = worker.bucket.jitter;
            &&& (shortest - asked) * jitter.den <= shortest * jitter.num
            &&& (asked - shortest) * jitter.den <= shortest * jitter.num
        }),
{
    let bucket = worker.bucket.replenished(now as nat);
    let nominal = bucket.nominal_wait() as int;
    let spread = bucket.spread() as int;
    let asked = turn.action->Wait_0 as int;
    let den = bucket.jitter.den as int;
    law_nominal_wait_is_shortest(bucket);
    law_spread_is_share_of_wait(bucket);
    let held = bucket.tokens as int;
    let token = bucket.quota.den * bucket.scale * 28_800_000_000_000;
    let earned = bucket.quota.num * bucket.hourly * (match bucket.level {
        PressureLevel::Healthy => 8int,
        PressureLevel::Warn => 4int,
        PressureLevel::Critical => 2int,
        PressureLevel::Emergency => 1int,
    });
    lemma_rate_bounds(
        bucket.quota.num as int,
        bucket.hourly as int,
        bucket.level.eighths() as int,
    );
    assert(shortest == nominal) by (nonlinear_arith)
        requires
            earned >= 1,
            held + shortest * earned >= token,
            held + (shortest - 1) * earned < token,
            held + nominal * earned >= token,
            held + (nominal - 1) * earned < token,
    ;
    assert((nominal - asked) * den <= spread * den) by (nonlinear_arith)
        requires
            nominal - asked <= spread,
            den >= 0,
    ;
    assert((asked - nominal) * den <= spread * den) by (nonlinear_arith)
        requires
            asked - nominal <= spread,
            den >= 0,
    ;
}

/// Which metric changes a turn carries: the pace when a token is taken, the outcome
/// of a request when it ends, with what remains where the answer says, and
/// otherwise none.
pub proof fn law_updates(worker: WorkerModel, event: Event, turn: Turn)
    requires
        worker.calls_for(event, turn),
    ensures
        turn.action is Decode ==> {
            &&& turn.updates@.len() == 1
            &&& turn.updates@[0] matches MetricUpdate::PaceFactor(pace)
            &&& pace.num == 1
            &&& pace.den == match worker.bucket.level {
                PressureLevel::Healthy => 1int,
                PressureLevel::Warn => 2int,
                PressureLevel::Critical => 4int,
                PressureLevel::Emergency => 8int,
            }
        },
        turn.action is Publish ==> (event matches Event::Answered(answer) && {
            &&& turn.updates@.len() == if answer.remaining is Some {
                2int
            } else {
                1int
            }
            &&& turn.updates@[0] matches MetricUpdate::Counted(outcome)
            &&& answer.cached ==> outcome is Cached
            &&& !answer.cached ==> outcome is Success
            &&& answer.remaining matches Some(remaining) ==> (
            turn.updates@[1] matches MetricUpdate::Remaining(told) && told == remaining)
        }),
        turn.action is Nak ==> {
            &&& turn.updates@.len() == 1
            &&& turn.updates@[0] matches MetricUpdate::Counted(outcome)
            &&& outcome is Error
        },
        !(turn.action is Decode || turn.action is Publish || turn.action is Nak)
            ==> turn.updates@.len() == 0,
{
}

/// A fresh worker fetches, has seen no total, and goes by its config.
pub proof fn law_fresh_worker(config: Config, initial_budget: u32)
    ensures
        ({
            let worker = fresh_worker(config, initial_budget);
            &&& worker.stage is Fetching
            &&& worker.bucket == config.bucket()
            &&& worker.observed is None
            &&& worker.budget() == initial_budget
            &&& worker.initial_budget == initial_budget
            &&& worker.fixed <==> config.rate_limit.requests_per_minute_override is Some
            &&& worker.results == config.nats.result_subject@
        }),
{
}

/// A rest lasts one second.
pub proof fn law_rest_is_one_second()
    ensures
        REST_NANOS == 1_000_000_000,
{
}

} // verus!
