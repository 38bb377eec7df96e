//! The once-per-second progress sample of a running run.
use vstd::prelude::*;

use crate::histogram::{level_at, mean_level};
use crate::stats::StatsAggregator;

verus! {

/// Shortest elapsed time, in milliseconds, a rate is computed over.
pub const MIN_RATE_WINDOW_MS: u64 = 100;

/// Progress in hundredths of a percent at completion.
pub const FULL_PROGRESS: u64 = 10_000;

/// One progress reading. Latencies are whole milliseconds, the rate is
/// requests per thousand seconds, progress is in hundredths of a percent.
#[derive(Clone, Copy, Debug, PartialEq, Eq, Structural)]
pub struct ProgressSample {
    pub requests_sent: u64,
    pub responses_received: u64,
    pub errors: u64,
    pub current_rate_per_kilosecond: u64,
    pub avg_latency_ms: u64,
    pub p95_latency_ms: u64,
    pub elapsed_ms: u64,
    pub progress_basis_points: u64,
}

/// `min(elapsed / duration * 100, 100)` percent, in hundredths of a percent;
/// a zero duration counts as complete.
pub open spec fn progress_spec(elapsed_ms: nat, duration_seconds: nat) -> nat {
    if duration_seconds == 0 {
        FULL_PROGRESS as nat
    } else {
        let p = elapsed_ms * 10 / duration_seconds;
        if p > FULL_PROGRESS {
            FULL_PROGRESS as nat
        } else {
            p
        }
    }
}

/// Computes `progress_spec`.
pub fn progress_basis_points(elapsed_ms: u64, duration_seconds: u64) -> (r: u64)
    ensures
        r == progress_spec(elapsed_ms as nat, duration_seconds as nat),
        r <= FULL_PROGRESS,
{
    if duration_seconds == 0 {
        FULL_PROGRESS
    } else {
        let p: u128 = (elapsed_ms as u128 * 10) / duration_seconds as u128;
        if p > FULL_PROGRESS as u128 {
            FULL_PROGRESS
        } else {
            p as u64
        }
    }
}

/// `requests / max(elapsed, 0.1 s)`, in requests per thousand seconds,
/// saturated at the largest `u64`.
pub open spec fn current_rate_spec(requests: nat, elapsed_ms: nat) -> nat {
    let w = if elapsed_ms < MIN_RATE_WINDOW_MS {
        MIN_RATE_WINDOW_MS as nat
    } else {
        elapsed_ms
    };
    let r = requests * 1_000_000 / w;
    if r > u64::MAX {
        u64::MAX as nat
    } else {
        r
    }
}

/// Computes `current_rate_spec`.
pub fn current_rate(requests: u64, elapsed_ms: u64) -> (r: u64)
    ensures
        r == current_rate_spec(requests as nat, elapsed_ms as nat),
{
    let w: u128 = if elapsed_ms < MIN_RATE_WINDOW_MS {
        MIN_RATE_WINDOW_MS as u128
    } else {
        elapsed_ms as u128
    };
    let q: u128 = (requests as u128 * 1_000_000) / w;
    if q > u64::MAX as u128 {
        u64::MAX
    } else {
        q as u64
    }
}

/// Reads the statistics `elapsed_ms` into a run of `duration_seconds`.
pub fn sample(stats: &StatsAggregator, elapsed_ms: u64, duration_seconds: u64) -> (s:
    ProgressSample)
    requires
        stats.wf(),
    ensures
        s.requests_sent == stats.requests_sent_spec(),
        s.responses_received == stats.responses_received_spec(),
        s.errors == stats.errors_spec(),
        s.current_rate_per_kilosecond == current_rate_spec(
            stats.requests_sent_spec(),
            elapsed_ms as nat,
        ),
        s.avg_latency_ms == mean_level(stats.histogram_spec()),
        s.p95_latency_ms == level_at(stats.histogram_spec(), 95),
        stats.latencies().len() == 0 ==> s.avg_latency_ms == 0 && s.p95_latency_ms == 0,
        s.elapsed_ms == elapsed_ms,
        s.progress_basis_points == progress_spec(elapsed_ms as nat, duration_seconds as nat),
{
    let requests = stats.requests_sent();
    ProgressSample {
        requests_sent: requests,
        responses_received: stats.responses_received(),
        errors: stats.errors(),
        current_rate_per_kilosecond: current_rate(requests, elapsed_ms),
        avg_latency_ms: stats.mean_latency(),
        p95_latency_ms: stats.percentile_latency(95),
        elapsed_ms,
        progress_basis_points: progress_basis_points(elapsed_ms, duration_seconds),
    }
}

/// What the sampler does at a tick.
#[derive(Clone, Copy, Debug, PartialEq, Eq, Structural)]
pub enum SamplerStep {
    /// The run was stopped: end without publishing.
    Halt,
    /// Publish a sample and wait for the next tick.
    Publish,
    /// Publish a sample and end: the configured duration has passed.
    PublishAndHalt,
}

pub open spec fn sampler_step_spec(stop: bool, elapsed_ms: nat, duration_seconds: nat) -> SamplerStep {
    if stop {
        SamplerStep::Halt
    } else if elapsed_ms >= duration_seconds * 1000 {
        SamplerStep::PublishAndHalt
    } else {
        SamplerStep::Publish
    }
}

/// The sampler's decision at a tick.
pub fn sampler_step(stop: bool, elapsed_ms: u64, duration_seconds: u64) -> (r: SamplerStep)
    ensures
        r == sampler_step_spec(stop, elapsed_ms as nat, duration_seconds as nat),
{
    if stop {
        SamplerStep::Halt
    } else if elapsed_ms as u128 >= duration_seconds as u128 * 1000 {
        SamplerStep::PublishAndHalt
    } else {
        SamplerStep::Publish
    }
}

} // verus!
