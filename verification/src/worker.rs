//! `JetStreamPullWorker` - the composition of [`UpstreamApi`] + [`LeakyBucket`] +
//! pull consumer + metrics.
//!
//! The worker decides, its driver acts. The driver performs the action of a
//! [`Turn`], reports what came of it as an [`Event`], and gets the next turn. One
//! job is in hand at a time: it is fetched, paced, decoded, dispatched, its result
//! published and the job acknowledged, before the next one is fetched.
use serde_json::Error as JsonError;
use vstd::prelude::*;

use crate::bucket::{Admission, BucketModel, LeakyBucket};
use crate::config::Config;
use crate::error::Error;
use crate::metrics::{MetricUpdate, Metrics, Outcome};
use crate::upstream::UpstreamApi;

verus! {

/// How long the driver rests after a failure, in nanoseconds.
pub const REST_NANOS: u64 = 1_000_000_000;

/// What a response said about the upstream's rate limit.
#[derive(Debug, Clone, Copy, PartialEq, Eq, Structural)]
pub struct Answer {
    /// The response was a cached one.
    pub cached: bool,
    /// What remains of the budget.
    pub remaining: Option<u32>,
    /// The current total budget.
    pub total: Option<u32>,
}

/// What the driver reports.
#[derive(Debug)]
pub enum Event {
    /// The process is asked to stop.
    Shutdown,
    /// The fetch is done, with the subject of the job if there was one.
    Fetched(Option<String>),
    /// The fetch failed, with the broker's message.
    FetchFailed(String),
    /// The wait is over; the time is now this many nanoseconds since the worker
    /// was built.
    Clock(u64),
    /// The job's payload is a valid request.
    Decoded,
    /// The job's payload is no valid request.
    DecodeFailed(JsonError),
    /// The upstream answered.
    Answered(Answer),
    /// The upstream failed.
    DispatchFailed,
    /// The result is published.
    Published,
    /// The result could not be written as JSON.
    EncodeFailed(JsonError),
    /// The result could not be published, with the broker's message.
    PublishFailed(String),
    /// The job is acknowledged, or handed back for redelivery.
    Acknowledged,
    /// The job could not be acknowledged, with the broker's message.
    AcknowledgeFailed(String),
    /// The rest is over.
    Rested,
}

/// What the driver is to do next.
#[derive(Debug)]
pub enum Action {
    /// Fetch one job.
    Fetch,
    /// Sleep this many nanoseconds, then tell the time.
    Wait(u128),
    /// Decode the job's payload.
    Decode,
    /// Dispatch the request to the upstream.
    Dispatch,
    /// Publish the result on this subject.
    Publish(String),
    /// Acknowledge the job.
    Ack,
    /// Hand the job back for redelivery.
    Nak,
    /// Log the error and rest for [`REST_NANOS`].
    Rest(Error),
    /// Leave the loop.
    Stop,
    /// Nothing: the event was out of turn.
    Nothing,
}

/// Metric changes to apply, and the next action.
#[derive(Debug)]
pub struct Turn {
    pub updates: Vec<MetricUpdate>,
    pub action: Action,
}

/// Where the worker stands.
#[derive(Debug)]
enum Phase {
    Fetching,
    AwaitingToken(String),
    Decoding(String),
    Dispatching(String),
    Publishing,
    Acknowledging,
    Resting,
    Stopped,
}

/// Where a worker stands; a job in hand is known by its subject.
pub enum Stage {
    /// A fetch is under way.
    Fetching,
    /// A job is in hand and waits for a token.
    AwaitingToken(Seq<char>),
    /// A token is taken; the payload is being decoded.
    Decoding(Seq<char>),
    /// The request is with the upstream.
    Dispatching(Seq<char>),
    /// The result is being published.
    Publishing,
    /// The job is being acknowledged or handed back.
    Acknowledging,
    /// Something failed; the driver rests.
    Resting,
    /// The worker is done.
    Stopped,
}

impl View for Phase {
    type V = Stage;

    closed spec fn view(&self) -> Stage {
        match self {
            Phase::Fetching => Stage::Fetching,
            Phase::AwaitingToken(subject) => Stage::AwaitingToken(subject@),
            Phase::Decoding(subject) => Stage::Decoding(subject@),
            Phase::Dispatching(subject) => Stage::Dispatching(subject@),
            Phase::Publishing => Stage::Publishing,
            Phase::Acknowledging => Stage::Acknowledging,
            Phase::Resting => Stage::Resting,
            Phase::Stopped => Stage::Stopped,
        }
    }
}

/// What a worker is, apart from its upstream and its config.
pub struct WorkerModel {
    pub stage: Stage,
    pub bucket: BucketModel,
    /// The last total budget, other than zero, that a response reported.
    pub observed: Option<u32>,
    /// The budget per hour that counts until a response reports one.
    pub initial_budget: u32,
    /// The config fixes the rate, so that reported totals leave it as it is.
    pub fixed: bool,
    /// The subject under which results are published.
    pub results: Seq<char>,
}

/// The part of a subject after its last dot.
pub open spec fn last_token(subject: Seq<char>) -> Seq<char>
    decreases subject.len(),
{
    if subject.len() == 0 || subject.last() == '.' {
        Seq::empty()
    } else {
        last_token(subject.drop_last()).push(subject.last())
    }
}

/// The subject on which the result of a job is published.
pub open spec fn result_subject(results: Seq<char>, subject: Seq<char>) -> Seq<char> {
    results + "."@ + last_token(subject)
}

impl WorkerModel {
    /// The worker at another stage.
    pub open spec fn at(self, stage: Stage) -> WorkerModel {
        WorkerModel { stage, ..self }
    }

    /// The budget that headroom is measured against.
    pub open spec fn budget(self) -> u32 {
        match self.observed {
            Some(total) => total,
            None => self.initial_budget,
        }
    }

    /// The worker once it has taken in what a response reports: first the total
    /// budget, which sets the rate unless that is fixed, then the headroom against
    /// it.
    pub open spec fn informed(self, answer: Answer) -> WorkerModel {
        let rated = match answer.total {
            Some(total) => WorkerModel {
                bucket: if self.fixed {
                    self.bucket
                } else {
                    self.bucket.limited(total)
                },
                observed: if total == 0 {
                    self.observed
                } else {
                    Some(total)
                },
                ..self
            },
            None => self,
        };
        match answer.remaining {
            Some(remaining) => WorkerModel {
                bucket: rated.bucket.pressed(remaining, rated.budget()),
                ..rated
            },
            None => rated,
        }
    }

    /// The worker after an event. An event out of turn changes nothing.
    pub open spec fn after(self, event: Event) -> WorkerModel {
        match (self.stage, event) {
            (_, Event::Shutdown) => self.at(Stage::Stopped),
            (Stage::Fetching, Event::Fetched(Some(subject))) => self.at(
                Stage::AwaitingToken(subject@),
            ),
            (Stage::Fetching, Event::FetchFailed(_)) => self.at(Stage::Resting),
            (Stage::AwaitingToken(subject), Event::Clock(now)) => WorkerModel {
                bucket: self.bucket.requested(now as nat),
                stage: if self.bucket.grants(now as nat) {
                    Stage::Decoding(subject)
                } else {
                    Stage::AwaitingToken(subject)
                },
                ..self
            },
            (Stage::Decoding(subject), Event::Decoded) => self.at(Stage::Dispatching(subject)),
            (Stage::Decoding(_), Event::DecodeFailed(_)) => self.at(Stage::Resting),
            (Stage::Dispatching(_), Event::Answered(answer)) => self.informed(answer).at(
                Stage::Publishing,
            ),
            (Stage::Dispatching(_), Event::DispatchFailed) => self.at(Stage::Acknowledging),
            (Stage::Publishing, Event::Published) => self.at(Stage::Acknowledging),
            (Stage::Publishing, Event::EncodeFailed(_)) => self.at(Stage::Resting),
            (Stage::Publishing, Event::PublishFailed(_)) => self.at(Stage::Resting),
            (Stage::Acknowledging, Event::Acknowledged) => self.at(Stage::Fetching),
            (Stage::Acknowledging, Event::AcknowledgeFailed(_)) => self.at(Stage::Resting),
            (Stage::Resting, Event::Rested) => self.at(Stage::Fetching),
            _ => self,
        }
    }

    /// The turn is the one that an event calls for.
    pub open spec fn calls_for(self, event: Event, turn: Turn) -> bool {
        match (self.stage, event) {
            (_, Event::Shutdown) => turn.updates@.len() == 0 && turn.action is Stop,
            (Stage::Stopped, _) => turn.updates@.len() == 0 && turn.action is Stop,
            (Stage::Fetching, Event::Fetched(None)) => turn.updates@.len() == 0
                && turn.action is Fetch,
            (Stage::Fetching, Event::Fetched(Some(_))) => turn.updates@.len() == 0
                && turn.action == Action::Wait(0),
            (Stage::Fetching, Event::FetchFailed(text)) => turn.updates@.len() == 0 && (
            turn.action matches Action::Rest(Error::Nats(why)) && why@ == text@),
            (Stage::AwaitingToken(_), Event::Clock(now)) => if self.bucket.grants(now as nat) {
                &&& turn.updates@ == seq![
                    MetricUpdate::PaceFactor(self.bucket.level.multiplier()),
                ]
                &&& turn.action is Decode
            } else {
                let bucket = self.bucket.replenished(now as nat);
                &&& turn.updates@.len() == 0
                &&& turn.action matches Action::Wait(nanos)
                &&& bucket.nominal_wait() - bucket.spread() <= nanos <= bucket.nominal_wait()
                    + bucket.spread()
                &&& bucket.waits(nanos)
            },
            (Stage::Decoding(_), Event::Decoded) => turn.updates@.len() == 0
                && turn.action is Dispatch,
            (Stage::Decoding(_), Event::DecodeFailed(e)) => turn.updates@.len() == 0
                && rests_on_json(turn.action, e),
            (Stage::Dispatching(subject), Event::Answered(answer)) => {
                &&& turn.updates@ == answer_updates(answer)
                &&& turn.action matches Action::Publish(to)
                &&& to@ == result_subject(self.results, subject)
            },
            (Stage::Dispatching(_), Event::DispatchFailed) => {
                &&& turn.updates@ == seq![MetricUpdate::Counted(Outcome::Error)]
                &&& turn.action is Nak
            },
            (Stage::Publishing, Event::Published) => turn.updates@.len() == 0
                && turn.action is Ack,
            (Stage::Publishing, Event::EncodeFailed(e)) => turn.updates@.len() == 0
                && rests_on_json(turn.action, e),
            (Stage::Publishing, Event::PublishFailed(text)) => turn.updates@.len() == 0 && (
            turn.action matches Action::Rest(Error::Nats(why)) && why@ == text@),
            (Stage::Acknowledging, Event::Acknowledged) => turn.updates@.len() == 0
                && turn.action is Fetch,
            (Stage::Acknowledging, Event::AcknowledgeFailed(text)) => turn.updates@.len() == 0 && (
            turn.action matches Action::Rest(Error::Nats(why)) && why@ == text@),
            (Stage::Resting, Event::Rested) => turn.updates@.len() == 0 && turn.action is Fetch,
            _ => turn.updates@.len() == 0 && turn.action is Nothing,
        }
    }
}

/// The action rests on an error that tells what the JSON error says.
pub open spec fn rests_on_json(action: Action, e: JsonError) -> bool {
    action matches Action::Rest(Error::Serde(why))
        && vstd::string::to_string_from_display_ensures::<JsonError>(&e, why)
}

/// The metric changes that a response brings.
pub open spec fn answer_updates(answer: Answer) -> Seq<MetricUpdate> {
    let counted = seq![
        MetricUpdate::Counted(
            if answer.cached {
                Outcome::Cached
            } else {
                Outcome::Success
            },
        ),
    ];
    match answer.remaining {
        Some(remaining) => counted.push(MetricUpdate::Remaining(remaining)),
        None => counted,
    }
}

/// A worker fresh from its config.
pub open spec fn fresh_worker(config: Config, initial_budget: u32) -> WorkerModel {
    WorkerModel {
        stage: Stage::Fetching,
        bucket: config.bucket(),
        observed: None,
        initial_budget,
        fixed: config.rate_limit.requests_per_minute_override is Some,
        results: config.nats.result_subject@,
    }
}

/// Pull-based JetStream worker.
///
/// Generic over [`UpstreamApi`] so each consumer's binary instantiates it with
/// its own typed upstream client.
pub struct JetStreamPullWorker<U: UpstreamApi> {
    upstream: U,
    cfg: Config,
    bucket: LeakyBucket,
    metrics: Metrics,
    observed_total: Option<u32>,
    phase: Phase,
}

impl<U: UpstreamApi> View for JetStreamPullWorker<U> {
    type V = WorkerModel;

    closed spec fn view(&self) -> WorkerModel {
        WorkerModel {
            stage: self.phase@,
            bucket: self.bucket@,
            observed: self.observed_total,
            initial_budget: U::INITIAL_BUDGET_PER_HOUR,
            fixed: self.cfg.rate_limit.requests_per_minute_override is Some,
            results: self.cfg.nats.result_subject@,
        }
    }
}

fn quiet(action: Action) -> (r: Turn)
    ensures
        r.action == action,
        r.updates@.len() == 0,
{
    Turn { updates: Vec::new(), action }
}

/// The subject on which the result of a job is published: the result subject and
/// the last token of the job's own.
pub fn subject_for_result(results: &str, subject: &str) -> (r: String)
    ensures
        r@ == result_subject(results@, subject@),
{
    let len: usize = subject.unicode_len();
    let mut start: usize = len;
    let ghost whole = subject@;
    assert(whole.take(len as int) =~= whole);
    assert(last_token(whole.take(start as int)) + whole.subrange(start as int, len as int)
        =~= last_token(whole));
    while start > 0 && subject.get_char(start - 1) != '.'
        invariant
            start <= len,
            whole == subject@,
            len == whole.len(),
            last_token(whole) == last_token(whole.take(start as int)) + whole.subrange(
                start as int,
                len as int,
            ),
        decreases start,
    {
        proof {
            let upto = whole.take(start as int);
            assert(upto.drop_last() =~= whole.take(start - 1));
            assert(last_token(upto) =~= last_token(whole.take(start - 1)).push(whole[start - 1]));
            assert(last_token(whole.take(start - 1)) + whole.subrange(start - 1, len as int)
                =~= last_token(upto) + whole.subrange(start as int, len as int));
        }
        start = start - 1;
    }
    proof {
        let upto = whole.take(start as int);
        assert(last_token(upto) =~= Seq::<char>::empty());
        assert(last_token(whole) =~= whole.subrange(start as int, len as int));
    }
    let mut line = results.to_owned();
    line.append(".");
    line.append(subject.substring_char(start, len));
    line
}

impl<U: UpstreamApi> JetStreamPullWorker<U> {
    /// The bucket's tokens are kept as the bucket keeps them.
    pub closed spec fn sound(self) -> bool {
        self.bucket.split()
    }

    /// The worker's bucket keeps its bounds.
    pub open spec fn wf(self) -> bool {
        self@.bucket.wf() && self.sound()
    }

    /// The upstream that the worker was built with.
    pub closed spec fn api(self) -> U {
        self.upstream
    }

    /// The config that the worker was built with.
    pub closed spec fn cfg(self) -> Config {
        self.cfg
    }

    /// The metrics the worker emits.
    pub closed spec fn families(self) -> Metrics {
        self.metrics
    }

    /// Build a worker from a typed upstream and a config.
    ///
    /// # Errors
    /// `Error::Config` if the config validation fails or the bucket can't be
    /// built.
    pub fn new(upstream: U, cfg: Config) -> (r: Result<Self, Error>)
        ensures
            match r {
                Ok(worker) => {
                    &&& cfg.refusal() is None
                    &&& cfg.bucket_refusal() is None
                    &&& worker.wf()
                    &&& worker@ == fresh_worker(cfg, U::INITIAL_BUDGET_PER_HOUR)
                    &&& worker.api() == upstream
                    &&& worker.cfg() == cfg
                    &&& worker.families().standard()
                },
                Err(Error::Config(why)) => {
                    ||| cfg.refusal() == Some(why@)
                    ||| cfg.refusal() is None && cfg.bucket_refusal() == Some(why@)
                },
                Err(_) => false,
            },
    {
        match cfg.validate() {
            Ok(_) => {},
            Err(e) => {
                return Err(e);
            },
        }
        let bucket = match cfg.build_bucket() {
            Ok(bucket) => bucket,
            Err(e) => {
                return Err(e);
            },
        };
        Ok(
            JetStreamPullWorker {
                upstream,
                cfg,
                bucket,
                metrics: Metrics::new(),
                observed_total: None,
                phase: Phase::Fetching,
            },
        )
    }

    /// The upstream.
    pub fn upstream(&self) -> (r: &U)
        ensures
            *r == self.api(),
    {
        &self.upstream
    }

    /// The config.
    pub fn config(&self) -> (r: &Config)
        ensures
            *r == self.cfg(),
    {
        &self.cfg
    }

    /// The metrics to register.
    pub fn metrics(&self) -> (r: &Metrics)
        ensures
            *r == self.families(),
    {
        &self.metrics
    }

    /// The pressure level of the worker's bucket.
    pub fn pressure(&self) -> (r: crate::bucket::PressureLevel)
        ensures
            r == self@.bucket.level,
    {
        self.bucket.pressure()
    }

    /// Take in what a response reports about the rate limit.
    fn inform(&mut self, answer: Answer)
        requires
            old(self).wf(),
        ensures
            final(self).wf(),
            final(self)@ == old(self)@.informed(answer),
            final(self).api() == old(self).api(),
            final(self).cfg() == old(self).cfg(),
            final(self).families() == old(self).families(),
    {
        if let Some(total) = answer.total {
            if self.cfg.rate_limit.requests_per_minute_override.is_none() {
                self.bucket.record_observed_limit(total);
            }
            if total != 0 {
                self.observed_total = Some(total);
            }
        }
        if let Some(remaining) = answer.remaining {
            let budget: u32 = match self.observed_total {
                Some(total) => total,
                None => U::INITIAL_BUDGET_PER_HOUR,
            };
            self.bucket.record_headroom(remaining, budget);
        }
    }

    /// Take in an event and say what to do next.
    pub fn step(&mut self, event: Event) -> (turn: Turn)
        requires
            old(self).wf(),
        ensures
            final(self).wf(),
            final(self)@ == old(self)@.after(event),
            old(self)@.calls_for(event, turn),
            final(self).api() == old(self).api(),
            final(self).cfg() == old(self).cfg(),
            final(self).families() == old(self).families(),
    {
        let mut phase = Phase::Stopped;
        std::mem::swap(&mut phase, &mut self.phase);
        match (phase, event) {
            (_, Event::Shutdown) => quiet(Action::Stop),
            (Phase::Stopped, _) => quiet(Action::Stop),
            (Phase::Fetching, Event::Fetched(None)) => {
                self.phase = Phase::Fetching;
                quiet(Action::Fetch)
            },
            (Phase::Fetching, Event::Fetched(Some(subject))) => {
                self.phase = Phase::AwaitingToken(subject);
                quiet(Action::Wait(0))
            },
            (Phase::Fetching, Event::FetchFailed(text)) => {
                self.phase = Phase::Resting;
                quiet(Action::Rest(Error::Nats(text)))
            },
            (Phase::AwaitingToken(subject), Event::Clock(now)) => {
                match self.bucket.acquire(now) {
                    Admission::Admitted => {
                        self.phase = Phase::Decoding(subject);
                        let mut turn = quiet(Action::Decode);
                        turn.updates.push(
                            MetricUpdate::PaceFactor(self.bucket.pressure().pace_multiplier()),
                        );
                        assert(turn.updates@ =~= seq![
                            MetricUpdate::PaceFactor(old(self)@.bucket.level.multiplier()),
                        ]);
                        turn
                    },
                    Admission::Wait(nanos) => {
                        self.phase = Phase::AwaitingToken(subject);
                        quiet(Action::Wait(nanos))
                    },
                }
            },
            (Phase::Decoding(subject), Event::Decoded) => {
                self.phase = Phase::Dispatching(subject);
                quiet(Action::Dispatch)
            },
            (Phase::Decoding(_), Event::DecodeFailed(e)) => {
                self.phase = Phase::Resting;
                quiet(Action::Rest(Error::from(e)))
            },
            (Phase::Dispatching(subject), Event::Answered(answer)) => {
                self.inform(answer);
                self.phase = Phase::Publishing;
                let to = subject_for_result(
                    self.cfg.nats.result_subject.as_str(),
                    subject.as_str(),
                );
                let mut turn = quiet(Action::Publish(to));
                turn.updates.push(
                    MetricUpdate::Counted(
                        if answer.cached {
                            Outcome::Cached
                        } else {
                            Outcome::Success
                        },
                    ),
                );
                if let Some(remaining) = answer.remaining {
                    turn.updates.push(MetricUpdate::Remaining(remaining));
                }
                assert(turn.updates@ =~= answer_updates(answer));
                turn
            },
            (Phase::Dispatching(_), Event::DispatchFailed) => {
                self.phase = Phase::Acknowledging;
                let mut turn = quiet(Action::Nak);
                turn.updates.push(MetricUpdate::Counted(Outcome::Error));
                assert(turn.updates@ =~= seq![MetricUpdate::Counted(Outcome::Error)]);
                turn
            },
            (Phase::Publishing, Event::Published) => {
                self.phase = Phase::Acknowledging;
                quiet(Action::Ack)
            },
            (Phase::Publishing, Event::EncodeFailed(e)) => {
                self.phase = Phase::Resting;
                quiet(Action::Rest(Error::from(e)))
            },
            (Phase::Publishing, Event::PublishFailed(text)) => {
                self.phase = Phase::Resting;
                quiet(Action::Rest(Error::Nats(text)))
            },
            (Phase::Acknowledging, Event::Acknowledged) => {
                self.phase = Phase::Fetching;
                quiet(Action::Fetch)
            },
            (Phase::Acknowledging, Event::AcknowledgeFailed(text)) => {
                self.phase = Phase::Resting;
                quiet(Action::Rest(Error::Nats(text)))
            },
            (Phase::Resting, Event::Rested) => {
                self.phase = Phase::Fetching;
                quiet(Action::Fetch)
            },
            (phase, _) => {
                self.phase = phase;
                quiet(Action::Nothing)
            },
        }
    }

    /// Take in a response: ask the upstream what the response reports, and say
    /// what to do next.
    pub fn on_response(&mut self, response: &U::Response) -> (turn: Turn)
        requires
            old(self).wf(),
        ensures
            final(self).wf(),
            exists|cached: bool, remaining: Option<u32>, total: Option<u32>|
                {
                    let event = Event::Answered(Answer { cached, remaining, total });
                    &&& #[trigger] call_ensures(
                        U::was_cached_response,
                        (&old(self).api(), response),
                        cached,
                    )
                    &&& #[trigger] call_ensures(
                        U::rate_limit_remaining,
                        (&old(self).api(), response),
                        remaining,
                    )
                    &&& #[trigger] call_ensures(
                        U::rate_limit_total,
                        (&old(self).api(), response),
                        total,
                    )
                    &&& final(self)@ == old(self)@.after(event)
                    &&& old(self)@.calls_for(event, turn)
                },
            final(self).api() == old(self).api(),
            final(self).cfg() == old(self).cfg(),
            final(self).families() == old(self).families(),
    {
        let cached = self.upstream.was_cached_response(response);
        let remaining = self.upstream.rate_limit_remaining(response);
        let total = self.upstream.rate_limit_total(response);
        self.step(Event::Answered(Answer { cached, remaining, total }))
    }
}

} // verus!
