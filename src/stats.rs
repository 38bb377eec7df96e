//! Statistics of one run: request counters, the latency histogram of
//! successful responses and the tally of error labels.
use vstd::prelude::*;
use vstd::multiset::Multiset;

use crate::histogram::{
    LatencyHistogram, highest_level, level_at, lowest_level, max_level, mean_level, mean_value,
    min_level, new_histogram, percentile_level, record_value, recorded, highest_trackable,
};
use crate::labels::{
    TransportErrorKind, TransportFlags, classify_transport, detail_or, http_error_label,
    http_label, kind_of, reason_phrase, transport_error_label, transport_label,
};
use crate::tally::{ErrorTally, pair_counts, sum_counts};

verus! {

/// Smallest latency, in milliseconds, the histogram distinguishes.
pub const LATENCY_LOW_MS: u64 = 1;

/// Largest latency, in milliseconds, the histogram tracks.
pub const LATENCY_HIGH_MS: u64 = 60_000;

/// Significant decimal digits the histogram keeps.
pub const LATENCY_SIGFIG: u8 = 3;

/// How one request ended.
#[derive(Clone, Debug)]
pub enum Outcome {
    /// A 2xx response, with its latency.
    Success { latency_ms: u64 },
    /// A response with any other status code.
    Status { code: u16 },
    /// No response: the failure's flags, its text and its source's text.
    Transport { flags: TransportFlags, message: String, source: Option<String> },
}

/// The label a transport failure is tallied under: a connection failure
/// carries its source's text, a request or unknown failure its own text.
pub open spec fn transport_outcome_label(
    flags: TransportFlags,
    message: Seq<char>,
    source: Option<Seq<char>>,
) -> Seq<char> {
    let k = kind_of(flags);
    transport_label(
        k,
        if k is Connection {
            source
        } else {
            Some(message)
        },
    )
}

/// The label a failed outcome is tallied under.
pub open spec fn outcome_label(o: Outcome) -> Seq<char> {
    match o {
        Outcome::Success { .. } => Seq::empty(),
        Outcome::Status { code } => http_label(code, reason_phrase(code)),
        Outcome::Transport { flags, message, source } => transport_outcome_label(
            flags,
            message@,
            match source {
                Some(s) => Some(s@),
                None => None,
            },
        ),
    }
}

/// The label of a failed outcome.
pub fn failure_label(o: &Outcome) -> (r: String)
    requires
        !(o is Success),
    ensures
        r@ == outcome_label(*o),
{
    match o {
        Outcome::Success { .. } => String::new(),
        Outcome::Status { code } => http_error_label(*code),
        Outcome::Transport { flags, message, source } => {
            let k = classify_transport(*flags);
            match k {
                TransportErrorKind::Connection => match source {
                    Some(s) => transport_error_label(k, Some(s.as_str())),
                    None => transport_error_label(k, None),
                },
                _ => transport_error_label(k, Some(message.as_str())),
            }
        },
    }
}

/// Final statistics of a run. Latencies are whole milliseconds, durations
/// milliseconds, and the rate is requests per thousand seconds.
#[derive(Clone, Debug)]
pub struct LoadTestResult {
    pub runtime: String,
    pub total_requests: u64,
    pub successful_requests: u64,
    pub failed_requests: u64,
    pub total_duration_ms: u64,
    pub requests_per_kilosecond: u64,
    pub avg_latency_ms: u64,
    pub min_latency_ms: u64,
    pub max_latency_ms: u64,
    pub p50_latency_ms: u64,
    pub p95_latency_ms: u64,
    pub p99_latency_ms: u64,
    pub error_types: Vec<(String, u64)>,
}

/// Two results that hold the same values.
pub open spec fn same_result(a: LoadTestResult, b: LoadTestResult) -> bool {
    &&& a.runtime@ == b.runtime@
    &&& a.total_requests == b.total_requests
    &&& a.successful_requests == b.successful_requests
    &&& a.failed_requests == b.failed_requests
    &&& a.total_duration_ms == b.total_duration_ms
    &&& a.requests_per_kilosecond == b.requests_per_kilosecond
    &&& a.avg_latency_ms == b.avg_latency_ms
    &&& a.min_latency_ms == b.min_latency_ms
    &&& a.max_latency_ms == b.max_latency_ms
    &&& a.p50_latency_ms == b.p50_latency_ms
    &&& a.p95_latency_ms == b.p95_latency_ms
    &&& a.p99_latency_ms == b.p99_latency_ms
    &&& a.error_types.len() == b.error_types.len()
    &&& forall|i: int|
        0 <= i < a.error_types.len() ==> (#[trigger] a.error_types[i]).0@ == b.error_types[i].0@
            && a.error_types[i].1 == b.error_types[i].1
}

impl LoadTestResult {
    /// A copy holding the same values.
    pub fn duplicate(&self) -> (r: LoadTestResult)
        ensures
            same_result(r, *self),
    {
        let mut types: Vec<(String, u64)> = Vec::new();
        let mut i: usize = 0;
        while i < self.error_types.len()
            invariant
                i <= self.error_types.len(),
                types.len() == i,
                forall|j: int|
                    0 <= j < i ==> (#[trigger] types@[j]).0@ == self.error_types@[j].0@
                        && types@[j].1 == self.error_types@[j].1,
            decreases self.error_types.len() - i,
        {
            let l = self.error_types[i].0.clone();
            let c = self.error_types[i].1;
            let ghost prev = types@;
            types.push((l, c));
            proof {
                assert forall|j: int| 0 <= j < i + 1 implies (#[trigger] types@[j]).0@
                    == self.error_types@[j].0@ && types@[j].1 == self.error_types@[j].1 by {
                    if j < i {
                        assert(types@[j] == prev[j]);
                    }
                }
            }
            i = i + 1;
        }
        let r = LoadTestResult {
            runtime: self.runtime.clone(),
            total_requests: self.total_requests,
            successful_requests: self.successful_requests,
            failed_requests: self.failed_requests,
            total_duration_ms: self.total_duration_ms,
            requests_per_kilosecond: self.requests_per_kilosecond,
            avg_latency_ms: self.avg_latency_ms,
            min_latency_ms: self.min_latency_ms,
            max_latency_ms: self.max_latency_ms,
            p50_latency_ms: self.p50_latency_ms,
            p95_latency_ms: self.p95_latency_ms,
            p99_latency_ms: self.p99_latency_ms,
            error_types: types,
        };
        proof {
            assert forall|j: int| 0 <= j < r.error_types.len() implies (#[trigger] r.error_types[j]).0@
                == self.error_types[j].0@ && r.error_types[j].1 == self.error_types[j].1 by {
                assert(r.error_types@[j] == types@[j]);
            }
        }
        r
    }
}

/// Requests per thousand seconds over `elapsed_ms` (taken as at least one
/// millisecond), saturated at the largest `u64`.
pub open spec fn rate_per_kilosecond(requests: nat, elapsed_ms: nat) -> nat {
    let r = requests * 1_000_000 / if elapsed_ms == 0 {
        1
    } else {
        elapsed_ms
    };
    if r > u64::MAX {
        u64::MAX as nat
    } else {
        r
    }
}

/// Computes `rate_per_kilosecond`.
pub fn rate_per_ks(requests: u64, elapsed_ms: u64) -> (r: u64)
    ensures
        r == rate_per_kilosecond(requests as nat, elapsed_ms as nat),
{
    let d: u128 = if elapsed_ms == 0 {
        1
    } else {
        elapsed_ms as u128
    };
    let n: u128 = requests as u128 * 1_000_000;
    let q: u128 = n / d;
    if q > u64::MAX as u128 {
        u64::MAX
    } else {
        q as u64
    }
}

/// Counters, histogram and error tally shared by the workers of one run.
pub struct StatsAggregator {
    requests_sent: u64,
    responses_received: u64,
    errors: u64,
    histogram: LatencyHistogram,
    error_types: ErrorTally,
    in_flight: Ghost<nat>,
}

impl StatsAggregator {
    pub closed spec fn requests_sent_spec(&self) -> nat {
        self.requests_sent as nat
    }

    pub closed spec fn responses_received_spec(&self) -> nat {
        self.responses_received as nat
    }

    pub closed spec fn errors_spec(&self) -> nat {
        self.errors as nat
    }

    /// Requests begun and not yet finished.
    pub closed spec fn in_flight(&self) -> nat {
        self.in_flight@
    }

    /// Latencies recorded so far.
    pub closed spec fn latencies(&self) -> Multiset<u64> {
        recorded(self.histogram)
    }

    /// The histogram itself, for the names its queries are stated over.
    pub closed spec fn histogram_spec(&self) -> LatencyHistogram {
        self.histogram
    }

    /// Error label counts so far.
    pub closed spec fn error_types_spec(&self) -> Map<Seq<char>, u64> {
        self.error_types@
    }

    /// Occurrences tallied over all error labels.
    pub closed spec fn tallied_spec(&self) -> nat {
        self.error_types.total_spec()
    }

    /// Every request begun is either finished, as a response or an error,
    /// or still in flight; every error is tallied under exactly one label.
    pub closed spec fn wf(&self) -> bool {
        &&& self.requests_sent == self.responses_received + self.errors + self.in_flight@
        &&& self.error_types.wf()
        &&& self.error_types.total_spec() == self.errors
        &&& highest_trackable(self.histogram) == LATENCY_HIGH_MS
    }

    /// Fresh statistics: all counters zero, nothing recorded.
    pub fn new() -> (r: StatsAggregator)
        ensures
            r.wf(),
            r.requests_sent_spec() == 0,
            r.responses_received_spec() == 0,
            r.errors_spec() == 0,
            r.in_flight() == 0,
            r.latencies().len() == 0,
            r.error_types_spec() == Map::<Seq<char>, u64>::empty(),
    {
        let h = new_histogram(LATENCY_LOW_MS, LATENCY_HIGH_MS, LATENCY_SIGFIG);
        StatsAggregator {
            requests_sent: 0,
            responses_received: 0,
            errors: 0,
            histogram: h.unwrap(),
            error_types: ErrorTally::new(),
            in_flight: Ghost(0),
        }
    }

    pub fn requests_sent(&self) -> (r: u64)
        ensures
            r == self.requests_sent_spec(),
    {
        self.requests_sent
    }

    pub fn responses_received(&self) -> (r: u64)
        ensures
            r == self.responses_received_spec(),
    {
        self.responses_received
    }

    pub fn errors(&self) -> (r: u64)
        ensures
            r == self.errors_spec(),
    {
        self.errors
    }

    /// Mean latency of the recorded successes (zero when none).
    pub fn mean_latency(&self) -> (r: u64)
        ensures
            r == mean_level(self.histogram_spec()),
            self.latencies().len() == 0 ==> r == 0,
    {
        mean_value(&self.histogram)
    }

    /// Latency at `percent` of the recorded successes.
    pub fn percentile_latency(&self, percent: u32) -> (r: u64)
        requires
            percent <= 100,
        ensures
            r == level_at(self.histogram_spec(), percent as nat),
            self.latencies().len() == 0 ==> r == 0,
    {
        percentile_level(&self.histogram, percent)
    }

    /// Counts one request as sent, before it is issued.
    pub fn begin_request(&mut self)
        requires
            old(self).wf(),
            old(self).requests_sent_spec() < u64::MAX,
        ensures
            final(self).wf(),
            began(*old(self), *final(self)),
    {
        self.requests_sent = self.requests_sent + 1;
        self.in_flight = Ghost(self.in_flight@ + 1);
    }

    /// Accounts for how a request begun earlier ended: a success counts as a
    /// response and records its latency (when within the tracked range); a
    /// failure counts as an error and tallies its label.
    pub fn finish_request(&mut self, outcome: Outcome)
        requires
            old(self).wf(),
            old(self).in_flight() > 0,
        ensures
            final(self).wf(),
            finished(*old(self), *final(self), outcome),
    {
        self.in_flight = Ghost((self.in_flight@ - 1) as nat);
        match outcome {
            Outcome::Success { latency_ms } => {
                self.responses_received = self.responses_received + 1;
                let _ = record_value(&mut self.histogram, latency_ms);
            },
            _ => {
                self.errors = self.errors + 1;
                let label = failure_label(&outcome);
                self.error_types.record(label);
            },
        }
    }

    /// Final statistics over `elapsed_ms` of wall-clock time.
    pub fn result(&self, runtime: String, elapsed_ms: u64) -> (r: LoadTestResult)
        requires
            self.wf(),
        ensures
            r.runtime@ == runtime@,
            r.total_requests == self.requests_sent_spec(),
            r.successful_requests == self.responses_received_spec(),
            r.failed_requests == self.errors_spec(),
            r.total_duration_ms == elapsed_ms,
            r.requests_per_kilosecond == rate_per_kilosecond(
                self.requests_sent_spec(),
                elapsed_ms as nat,
            ),
            r.avg_latency_ms == mean_level(self.histogram_spec()),
            r.min_latency_ms == lowest_level(self.histogram_spec()),
            r.max_latency_ms == highest_level(self.histogram_spec()),
            r.p50_latency_ms == level_at(self.histogram_spec(), 50),
            r.p95_latency_ms == level_at(self.histogram_spec(), 95),
            r.p99_latency_ms == level_at(self.histogram_spec(), 99),
            self.latencies().len() == 0 ==> {
                &&& r.min_latency_ms == 0
                &&& r.max_latency_ms == 0
                &&& r.avg_latency_ms == 0
                &&& r.p50_latency_ms == 0
                &&& r.p95_latency_ms == 0
                &&& r.p99_latency_ms == 0
            },
            forall|v: u64| #[trigger] self.latencies().count(v) > 0 ==> v <= r.max_latency_ms,
            forall|v: u64| #[trigger] self.latencies().count(v) > 0 && v > 0 ==> r.min_latency_ms <= v,
            self.latencies().len() > 0 ==> {
                &&& r.min_latency_ms <= r.p50_latency_ms
                &&& r.p50_latency_ms <= r.p95_latency_ms
                &&& r.p95_latency_ms <= r.p99_latency_ms
                &&& r.p99_latency_ms <= r.max_latency_ms
                &&& r.min_latency_ms <= r.avg_latency_ms <= r.max_latency_ms
            },
            r.error_types.len() == self.error_types_spec().dom().len(),
            sum_counts(pair_counts(r.error_types@)) == r.failed_requests,
            forall|i: int| 0 <= i < r.error_types.len() ==> #[trigger] r.error_types[i].1 >= 1,
            forall|i: int, j: int|
                0 <= i < j < r.error_types.len() ==> r.error_types[i].0@ != r.error_types[j].0@,
            forall|i: int|
                0 <= i < r.error_types.len() ==> #[trigger] self.error_types_spec().contains_key(
                    r.error_types[i].0@,
                ) && self.error_types_spec()[r.error_types[i].0@] == r.error_types[i].1,
    {
        let p50 = percentile_level(&self.histogram, 50);
        let p95 = percentile_level(&self.histogram, 95);
        let p99 = percentile_level(&self.histogram, 99);
        LoadTestResult {
            runtime,
            total_requests: self.requests_sent,
            successful_requests: self.responses_received,
            failed_requests: self.errors,
            total_duration_ms: elapsed_ms,
            requests_per_kilosecond: rate_per_ks(self.requests_sent, elapsed_ms),
            avg_latency_ms: mean_value(&self.histogram),
            min_latency_ms: min_level(&self.histogram),
            max_latency_ms: max_level(&self.histogram),
            p50_latency_ms: p50,
            p95_latency_ms: p95,
            p99_latency_ms: p99,
            error_types: self.error_types.entries(),
        }
    }
}

/// `after` is `before` with one more request sent and in flight.
pub open spec fn began(before: StatsAggregator, after: StatsAggregator) -> bool {
    &&& after.requests_sent_spec() == before.requests_sent_spec() + 1
    &&& after.responses_received_spec() == before.responses_received_spec()
    &&& after.errors_spec() == before.errors_spec()
    &&& after.in_flight() == before.in_flight() + 1
    &&& after.latencies() == before.latencies()
    &&& after.error_types_spec() == before.error_types_spec()
    &&& after.histogram_spec() == before.histogram_spec()
}

/// `after` is `before` with one in-flight request finished as `outcome`:
/// a success counts a response and records its latency (always when it is
/// within the tracked range); a failure counts an error and tallies its
/// label once.
pub open spec fn finished(before: StatsAggregator, after: StatsAggregator, outcome: Outcome) -> bool {
    &&& after.requests_sent_spec() == before.requests_sent_spec()
    &&& after.in_flight() == before.in_flight() - 1
    &&& match outcome {
        Outcome::Success { latency_ms } => {
            &&& after.responses_received_spec() == before.responses_received_spec() + 1
            &&& after.errors_spec() == before.errors_spec()
            &&& after.error_types_spec() == before.error_types_spec()
            &&& latency_ms <= LATENCY_HIGH_MS ==> after.latencies() == before.latencies().insert(
                latency_ms,
            )
            &&& latency_ms > LATENCY_HIGH_MS ==> after.latencies() == before.latencies()
                || after.latencies() == before.latencies().insert(latency_ms)
        },
        _ => {
            let l = outcome_label(outcome);
            &&& after.responses_received_spec() == before.responses_received_spec()
            &&& after.errors_spec() == before.errors_spec() + 1
            &&& after.latencies() == before.latencies()
            &&& after.histogram_spec() == before.histogram_spec()
            &&& after.error_types_spec() == before.error_types_spec().insert(
                l,
                if before.error_types_spec().contains_key(l) {
                    (before.error_types_spec()[l] + 1) as u64
                } else {
                    1
                },
            )
        },
    }
}

/// A 500 response is tallied under its fixed label.
pub proof fn lemma_status_500_label()
    ensures
        outcome_label(Outcome::Status { code: 500 }) == "HTTP_500_Internal_Server_Error"@,
{
}

/// A failure to connect (that is not a timeout) is tallied under a label
/// that starts with `Connection: `.
pub proof fn lemma_connection_label_prefix(flags: TransportFlags, message: String, source: Option<String>)
    requires
        flags.connect,
        !flags.timeout,
    ensures
        ({
            let l = outcome_label(Outcome::Transport { flags, message, source });
            &&& l.len() >= 12
            &&& l.subrange(0, 12) == "Connection: "@
        }),
{
    reveal_strlit("Connection: ");
    let d = match source {
        Some(s) => Some(s@),
        None => None,
    };
    let rest = detail_or(d, "Failed to establish connection"@);
    assert(("Connection: "@ + rest).subrange(0, 12) =~= "Connection: "@);
}

/// Against a target that only answers 500, the tally stays one label
/// counting every error: finishing a request with a 500 keeps it so.
pub proof fn lemma_only_500_keeps_single_label(before: StatsAggregator, after: StatsAggregator)
    requires
        before.errors_spec() == 0 ==> before.error_types_spec() == Map::<Seq<char>, u64>::empty(),
        before.errors_spec() > 0 ==> before.error_types_spec() == map![
            "HTTP_500_Internal_Server_Error"@ => before.errors_spec() as u64,
        ],
        finished(before, after, Outcome::Status { code: 500 }),
    ensures
        after.errors_spec() == before.errors_spec() + 1,
        after.responses_received_spec() == before.responses_received_spec(),
        after.error_types_spec() == map!["HTTP_500_Internal_Server_Error"@ => after.errors_spec() as u64],
{
    let l = "HTTP_500_Internal_Server_Error"@;
    if before.errors_spec() == 0 {
        assert(after.error_types_spec() =~= map![l => 1u64]);
    } else {
        assert(after.error_types_spec() =~= map![l => after.errors_spec() as u64]);
    }
}

/// Against an unreachable target no latency is recorded, no response is
/// counted, and every tallied label starts with `Connection: `: finishing a
/// request with a connection failure keeps it so.
pub proof fn lemma_connection_failures_keep_labels(
    before: StatsAggregator,
    after: StatsAggregator,
    flags: TransportFlags,
    message: String,
    source: Option<String>,
)
    requires
        flags.connect,
        !flags.timeout,
        before.latencies().len() == 0,
        forall|k: Seq<char>| #[trigger] before.error_types_spec().contains_key(k) ==> k.len() >= 12
            && k.subrange(0, 12) == "Connection: "@,
        finished(before, after, Outcome::Transport { flags, message, source }),
    ensures
        after.latencies().len() == 0,
        after.responses_received_spec() == before.responses_received_spec(),
        after.errors_spec() == before.errors_spec() + 1,
        forall|k: Seq<char>| #[trigger] after.error_types_spec().contains_key(k) ==> k.len() >= 12
            && k.subrange(0, 12) == "Connection: "@,
{
    lemma_connection_label_prefix(flags, message, source);
}

/// Against a target that always succeeds within the tracked range, no error
/// is counted or tallied and each latency is recorded: finishing a request
/// with such a success keeps it so.
pub proof fn lemma_successes_keep_errors_empty(
    before: StatsAggregator,
    after: StatsAggregator,
    latency_ms: u64,
)
    requires
        latency_ms <= LATENCY_HIGH_MS,
        before.errors_spec() == 0,
        before.error_types_spec() == Map::<Seq<char>, u64>::empty(),
        finished(before, after, Outcome::Success { latency_ms }),
    ensures
        after.errors_spec() == 0,
        after.error_types_spec() == Map::<Seq<char>, u64>::empty(),
        after.responses_received_spec() == before.responses_received_spec() + 1,
        after.latencies() == before.latencies().insert(latency_ms),
{
}

/// Once no request is in flight, as after every worker has joined, each
/// request sent was answered or counted as an error, exactly.
pub proof fn lemma_counts_balance_when_joined(s: &StatsAggregator)
    requires
        s.wf(),
        s.in_flight() == 0,
    ensures
        s.requests_sent_spec() == s.responses_received_spec() + s.errors_spec(),
{
}

} // verus!
