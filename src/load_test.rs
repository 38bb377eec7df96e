//! One run of the engine against one target: its lifecycle, the pacing
//! decisions of its workers and sampler, and its final result.
use vstd::prelude::*;

use crate::config::{LoadTestConfig, request_interval_ms_spec};
use crate::events::{Event, EventBus, now_millis};
use crate::histogram::{level_at, mean_level};
use crate::progress::{SamplerStep, current_rate_spec, progress_spec, sample, sampler_step, sampler_step_spec};
use crate::stats::{
    LoadTestResult, Outcome, StatsAggregator, began, finished, lemma_counts_balance_when_joined,
    rate_per_kilosecond, same_result,
};
use crate::tally::{pair_counts, sum_counts};
use crate::status::LoadTestStatus;

verus! {

/// Milliseconds from `started_ms` to `now_ms`, zero when the clock reads
/// earlier than the start, saturated at the largest `u64`.
pub open spec fn elapsed_spec(started_ms: int, now_ms: int) -> nat {
    if now_ms <= started_ms {
        0
    } else if now_ms - started_ms > u64::MAX {
        u64::MAX as nat
    } else {
        (now_ms - started_ms) as nat
    }
}

/// Computes `elapsed_spec`.
pub fn elapsed_between(started_ms: i64, now_ms: i64) -> (r: u64)
    ensures
        r == elapsed_spec(started_ms as int, now_ms as int),
{
    if now_ms <= started_ms {
        0
    } else {
        let d: i128 = now_ms as i128 - started_ms as i128;
        if d > u64::MAX as i128 {
            u64::MAX
        } else {
            d as u64
        }
    }
}

/// What a worker does at the top of its loop.
#[derive(Clone, Copy, Debug, PartialEq, Eq, Structural)]
pub enum WorkerStep {
    /// The run's time is up or it was stopped.
    Finish,
    /// Wait `delay_ms`, then issue one request.
    Send { delay_ms: u64 },
}

/// A worker ends once `duration_seconds` have passed or a stop was
/// requested; otherwise it waits out what is left of `interval_ms` since its
/// previous request, then sends.
pub open spec fn worker_step_spec(
    elapsed_ms: nat,
    duration_seconds: nat,
    stop: bool,
    since_last_ms: nat,
    interval_ms: nat,
) -> WorkerStep {
    if elapsed_ms >= duration_seconds * 1000 || stop {
        WorkerStep::Finish
    } else if since_last_ms < interval_ms {
        WorkerStep::Send { delay_ms: (interval_ms - since_last_ms) as u64 }
    } else {
        WorkerStep::Send { delay_ms: 0 }
    }
}

/// The decision of `worker_step_spec`.
pub fn worker_step(
    elapsed_ms: u64,
    duration_seconds: u64,
    stop: bool,
    since_last_ms: u64,
    interval_ms: u64,
) -> (r: WorkerStep)
    ensures
        r == worker_step_spec(
            elapsed_ms as nat,
            duration_seconds as nat,
            stop,
            since_last_ms as nat,
            interval_ms as nat,
        ),
        r is Finish ==> stop || elapsed_ms >= duration_seconds * 1000,
{
    if elapsed_ms as u128 >= duration_seconds as u128 * 1000 || stop {
        WorkerStep::Finish
    } else if since_last_ms < interval_ms {
        WorkerStep::Send { delay_ms: interval_ms - since_last_ms }
    } else {
        WorkerStep::Send { delay_ms: 0 }
    }
}

/// A worker never ends before the configured duration unless a stop was
/// requested, and it always ends once the duration has passed.
pub proof fn lemma_worker_ends_exactly_at_duration(
    elapsed_ms: nat,
    duration_seconds: nat,
    stop: bool,
    since_last_ms: nat,
    interval_ms: nat,
)
    ensures
        worker_step_spec(elapsed_ms, duration_seconds, stop, since_last_ms, interval_ms) is Finish
            <==> (stop || elapsed_ms >= duration_seconds * 1000),
{
}

/// One run: its parameters, statistics, lifecycle status and stop flag,
/// and the bus it reports on.
pub struct LoadTest {
    test_id: String,
    runtime: String,
    target_url: String,
    config: LoadTestConfig,
    started_at_ms: i64,
    stats: StatsAggregator,
    status: LoadTestStatus,
    should_stop: bool,
    bus: EventBus,
}

impl LoadTest {
    pub closed spec fn wf(&self) -> bool {
        self.stats.wf()
    }

    pub closed spec fn test_id_spec(&self) -> Seq<char> {
        self.test_id@
    }

    pub closed spec fn runtime_spec(&self) -> Seq<char> {
        self.runtime@
    }

    pub closed spec fn target_url_spec(&self) -> Seq<char> {
        self.target_url@
    }

    pub closed spec fn config_spec(&self) -> LoadTestConfig {
        self.config
    }

    pub closed spec fn status_spec(&self) -> LoadTestStatus {
        self.status
    }

    pub closed spec fn stop_requested(&self) -> bool {
        self.should_stop
    }

    pub closed spec fn started_at_spec(&self) -> i64 {
        self.started_at_ms
    }

    pub closed spec fn stats_spec(&self) -> StatsAggregator {
        self.stats
    }

    /// Events this run has published, oldest first.
    pub closed spec fn events(&self) -> Seq<Event> {
        self.bus.published()
    }

    /// A new run, `Running`, with fresh statistics and no stop requested,
    /// started now.
    pub fn new(
        test_id: String,
        runtime: String,
        target_url: String,
        config: LoadTestConfig,
        broadcast_tx: EventBus,
    ) -> (r: LoadTest)
        ensures
            r.wf(),
            r.test_id_spec() == test_id@,
            r.runtime_spec() == runtime@,
            r.target_url_spec() == target_url@,
            r.config_spec() == config,
            r.status_spec() is Running,
            !r.stop_requested(),
            r.stats_spec().requests_sent_spec() == 0,
            r.stats_spec().responses_received_spec() == 0,
            r.stats_spec().errors_spec() == 0,
            r.stats_spec().in_flight() == 0,
            r.stats_spec().latencies().len() == 0,
            r.stats_spec().error_types_spec() == Map::<Seq<char>, u64>::empty(),
            r.events() == broadcast_tx.published(),
    {
        LoadTest {
            test_id,
            runtime,
            target_url,
            config,
            started_at_ms: now_millis(),
            stats: StatsAggregator::new(),
            status: LoadTestStatus::Running,
            should_stop: false,
            bus: broadcast_tx,
        }
    }

    pub fn test_id(&self) -> (r: &String)
        ensures
            r@ == self.test_id_spec(),
    {
        &self.test_id
    }

    pub fn runtime(&self) -> (r: &String)
        ensures
            r@ == self.runtime_spec(),
    {
        &self.runtime
    }

    pub fn target_url(&self) -> (r: &String)
        ensures
            r@ == self.target_url_spec(),
    {
        &self.target_url
    }

    pub fn config(&self) -> (r: LoadTestConfig)
        ensures
            r == self.config_spec(),
    {
        self.config
    }

    pub fn status(&self) -> (r: LoadTestStatus)
        ensures
            r == self.status_spec(),
    {
        self.status
    }

    /// Start time, in milliseconds since the Unix epoch.
    pub fn started_at(&self) -> (r: i64)
        ensures
            r == self.started_at_spec(),
    {
        self.started_at_ms
    }

    /// Milliseconds since the start, by the clock now.
    pub fn elapsed_ms(&self) -> (r: u64)
        ensures
            exists|now: i64| r == elapsed_spec(self.started_at_spec() as int, now as int),
    {
        let now = now_millis();
        let r = elapsed_between(self.started_at_ms, now);
        assert(r == elapsed_spec(self.started_at_spec() as int, now as int));
        r
    }

    pub fn should_stop(&self) -> (r: bool)
        ensures
            r == self.stop_requested(),
    {
        self.should_stop
    }

    pub fn stats(&self) -> (r: &StatsAggregator)
        ensures
            *r == self.stats_spec(),
    {
        &self.stats
    }

    /// Requests a stop: the flag is raised for workers and sampler, and a
    /// running run becomes `Stopped` at once. Calling it again changes
    /// nothing.
    pub fn stop(&mut self)
        ensures
            final(self).stop_requested(),
            final(self).status_spec() == old(self).status_spec().after_stop_spec(),
            final(self).stats_spec() == old(self).stats_spec(),
            final(self).started_at_spec() == old(self).started_at_spec(),
            final(self).config_spec() == old(self).config_spec(),
            final(self).wf() == old(self).wf(),
            same_run(*old(self), *final(self)),
            final(self).events() == old(self).events(),
    {
        self.should_stop = true;
        self.status = self.status.after_stop();
    }

    /// The pacing interval each worker of this run applies.
    pub fn request_interval_ms(&self) -> (r: u64)
        ensures
            r == request_interval_ms_spec(self.config_spec()),
    {
        self.config.request_interval_ms()
    }

    /// A worker's decision at the top of its loop, `elapsed_ms` into its
    /// run and `since_last_ms` after its previous request.
    pub fn next_worker_step(&self, elapsed_ms: u64, since_last_ms: u64) -> (r: WorkerStep)
        ensures
            r == worker_step_spec(
                elapsed_ms as nat,
                self.config_spec().duration_seconds as nat,
                self.stop_requested(),
                since_last_ms as nat,
                request_interval_ms_spec(self.config_spec()) as nat,
            ),
    {
        let interval = self.config.request_interval_ms();
        worker_step(elapsed_ms, self.config.duration_seconds, self.should_stop, since_last_ms, interval)
    }

    /// Counts a request as sent, before it is issued.
    pub fn begin_request(&mut self)
        requires
            old(self).wf(),
            old(self).stats_spec().requests_sent_spec() < u64::MAX,
        ensures
            final(self).wf(),
            began(old(self).stats_spec(), final(self).stats_spec()),
            same_run(*old(self), *final(self)),
            final(self).status_spec() == old(self).status_spec(),
            final(self).stop_requested() == old(self).stop_requested(),
            final(self).events() == old(self).events(),
    {
        self.stats.begin_request();
    }

    /// Accounts for how a request ended: a success counts a response and
    /// records its latency, a failure counts an error and tallies its label.
    pub fn finish_request(&mut self, outcome: Outcome)
        requires
            old(self).wf(),
            old(self).stats_spec().in_flight() > 0,
        ensures
            final(self).wf(),
            finished(old(self).stats_spec(), final(self).stats_spec(), outcome),
            same_run(*old(self), *final(self)),
            final(self).status_spec() == old(self).status_spec(),
            final(self).stop_requested() == old(self).stop_requested(),
            final(self).events() == old(self).events(),
    {
        self.stats.finish_request(outcome);
    }

    /// One tick of the progress sampler at clock reading `now_ms`: unless a
    /// stop was requested, it publishes a progress event read from the
    /// statistics. Returns whether the sampler goes on: only while no stop
    /// was requested and the configured duration has not passed.
    pub fn sampler_tick_at(&mut self, now_ms: i64) -> (go_on: bool)
        requires
            old(self).wf(),
        ensures
            final(self).wf(),
            same_run(*old(self), *final(self)),
            final(self).stats_spec() == old(self).stats_spec(),
            final(self).status_spec() == old(self).status_spec(),
            final(self).stop_requested() == old(self).stop_requested(),
            ({
                let elapsed = elapsed_spec(old(self).started_at_spec() as int, now_ms as int);
                let step = sampler_step_spec(
                    old(self).stop_requested(),
                    elapsed,
                    old(self).config_spec().duration_seconds as nat,
                );
                &&& go_on == (step is Publish)
                &&& step is Halt ==> final(self).events() == old(self).events()
                &&& !(step is Halt) ==> {
                    &&& final(self).events().len() == old(self).events().len() + 1
                    &&& final(self).events().drop_last() == old(self).events()
                    &&& is_progress_of(final(self).events().last(), *old(self), elapsed, now_ms)
                }
            }),
            old(self).stop_requested() ==> !go_on,
    {
        let elapsed = elapsed_between(self.started_at_ms, now_ms);
        let step = sampler_step(self.should_stop, elapsed, self.config.duration_seconds);
        match step {
            SamplerStep::Halt => false,
            _ => {
                let s = sample(&self.stats, elapsed, self.config.duration_seconds);
                let ev = Event::Progress {
                    test_id: self.test_id.clone(),
                    runtime: self.runtime.clone(),
                    sample: s,
                    timestamp_ms: now_ms,
                };
                let _ = self.bus.publish(ev);
                proof {
                    assert(self.events().drop_last() =~= old(self).events());
                }
                match step {
                    SamplerStep::Publish => true,
                    _ => false,
                }
            },
        }
    }

    /// One tick of the progress sampler, by the clock now.
    pub fn sampler_tick(&mut self) -> (go_on: bool)
        requires
            old(self).wf(),
        ensures
            final(self).wf(),
            same_run(*old(self), *final(self)),
            final(self).stats_spec() == old(self).stats_spec(),
            final(self).status_spec() == old(self).status_spec(),
            old(self).stop_requested() ==> !go_on && final(self).events() == old(self).events(),
    {
        let now = now_millis();
        self.sampler_tick_at(now)
    }

    /// Ends the run once every worker has joined, `elapsed_ms` after it
    /// began: a running run becomes `Completed` (a stopped one stays
    /// `Stopped`), and the final result is computed, published in a
    /// completion event, and returned.
    pub fn complete(&mut self, elapsed_ms: u64) -> (r: LoadTestResult)
        requires
            old(self).wf(),
            old(self).stats_spec().in_flight() == 0,
        ensures
            final(self).wf(),
            final(self).status_spec() == old(self).status_spec().after_completion_spec(),
            final(self).stats_spec() == old(self).stats_spec(),
            final(self).stop_requested() == old(self).stop_requested(),
            same_run(*old(self), *final(self)),
            final(self).events().len() == old(self).events().len() + 1,
            final(self).events().drop_last() == old(self).events(),
            match final(self).events().last() {
                Event::TestCompleted { test_id, runtime, results, .. } => test_id@
                    == old(self).test_id_spec() && runtime@ == old(self).runtime_spec()
                    && same_result(results, r),
                _ => false,
            },
            r.runtime@ == old(self).runtime_spec(),
            r.total_requests == old(self).stats_spec().requests_sent_spec(),
            r.successful_requests == old(self).stats_spec().responses_received_spec(),
            r.failed_requests == old(self).stats_spec().errors_spec(),
            r.total_requests == r.successful_requests + r.failed_requests,
            r.total_duration_ms == elapsed_ms,
            r.requests_per_kilosecond == rate_per_kilosecond(r.total_requests as nat, elapsed_ms as nat),
            sum_counts(pair_counts(r.error_types@)) == r.failed_requests,
            forall|i: int| 0 <= i < r.error_types.len() ==> #[trigger] r.error_types[i].1 >= 1,
            forall|i: int|
                0 <= i < r.error_types.len() ==> #[trigger] old(
                    self,
                ).stats_spec().error_types_spec().contains_key(r.error_types[i].0@)
                    && old(self).stats_spec().error_types_spec()[r.error_types[i].0@]
                    == r.error_types[i].1,
            old(self).stats_spec().latencies().len() == 0 ==> {
                &&& r.min_latency_ms == 0
                &&& r.max_latency_ms == 0
                &&& r.avg_latency_ms == 0
                &&& r.p50_latency_ms == 0
                &&& r.p95_latency_ms == 0
                &&& r.p99_latency_ms == 0
            },
            old(self).stats_spec().latencies().len() > 0 ==> {
                &&& r.min_latency_ms <= r.p50_latency_ms
                &&& r.p50_latency_ms <= r.p95_latency_ms
                &&& r.p95_latency_ms <= r.p99_latency_ms
                &&& r.p99_latency_ms <= r.max_latency_ms
                &&& r.min_latency_ms <= r.avg_latency_ms <= r.max_latency_ms
            },
    {
        proof {
            lemma_counts_balance_when_joined(&self.stats);
        }
        self.status = self.status.after_completion();
        let result = self.stats.result(self.runtime.clone(), elapsed_ms);
        let ev = Event::TestCompleted {
            test_id: self.test_id.clone(),
            runtime: self.runtime.clone(),
            results: result.duplicate(),
            timestamp_ms: now_millis(),
        };
        let _ = self.bus.publish(ev);
        proof {
            assert(self.events().drop_last() =~= old(self).events());
        }
        result
    }

    /// Marks a run that could not be set up as `Failed` (a terminal state
    /// is kept) and publishes the error.
    pub fn fail(&mut self, error: String)
        ensures
            final(self).status_spec() == old(self).status_spec().after_setup_failure_spec(),
            final(self).stats_spec() == old(self).stats_spec(),
            final(self).stop_requested() == old(self).stop_requested(),
            final(self).wf() == old(self).wf(),
            same_run(*old(self), *final(self)),
            final(self).events().len() == old(self).events().len() + 1,
            final(self).events().drop_last() == old(self).events(),
            match final(self).events().last() {
                Event::TestError { test_id, runtime, error: e, .. } => test_id@
                    == old(self).test_id_spec() && runtime@ == old(self).runtime_spec() && e@
                    == error@,
                _ => false,
            },
    {
        self.status = self.status.after_setup_failure();
        let ev = Event::TestError {
            test_id: self.test_id.clone(),
            runtime: self.runtime.clone(),
            error,
            timestamp_ms: now_millis(),
        };
        let _ = self.bus.publish(ev);
        proof {
            assert(self.events().drop_last() =~= old(self).events());
        }
    }
}

/// `after` is the same run as `before`: same identity, target, settings and
/// start time.
pub open spec fn same_run(before: LoadTest, after: LoadTest) -> bool {
    &&& after.test_id_spec() == before.test_id_spec()
    &&& after.runtime_spec() == before.runtime_spec()
    &&& after.target_url_spec() == before.target_url_spec()
    &&& after.config_spec() == before.config_spec()
    &&& after.started_at_spec() == before.started_at_spec()
}

/// `e` is the progress event of run `t`, `elapsed_ms` into it, stamped
/// `now_ms`: counters, rate, mean and p95 latency read from its statistics.
pub open spec fn is_progress_of(e: Event, t: LoadTest, elapsed_ms: nat, now_ms: i64) -> bool {
    match e {
        Event::Progress { test_id, runtime, sample, timestamp_ms } => {
            let st = t.stats_spec();
            &&& test_id@ == t.test_id_spec()
            &&& runtime@ == t.runtime_spec()
            &&& timestamp_ms == now_ms
            &&& sample.elapsed_ms == elapsed_ms
            &&& sample.requests_sent == st.requests_sent_spec()
            &&& sample.responses_received == st.responses_received_spec()
            &&& sample.errors == st.errors_spec()
            &&& sample.current_rate_per_kilosecond == current_rate_spec(
                st.requests_sent_spec(),
                elapsed_ms,
            )
            &&& sample.avg_latency_ms == mean_level(st.histogram_spec())
            &&& sample.p95_latency_ms == level_at(st.histogram_spec(), 95)
            &&& st.latencies().len() == 0 ==> sample.avg_latency_ms == 0 && sample.p95_latency_ms
                == 0
            &&& sample.progress_basis_points == progress_spec(
                elapsed_ms,
                t.config_spec().duration_seconds as nat,
            )
        },
        _ => false,
    }
}

} // verus!
