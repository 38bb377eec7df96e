use vstd::prelude::*;

verus! {

/// Default length of a run when the request names none.
pub const DEFAULT_DURATION_SECONDS: u64 = 60;

/// Default number of concurrent workers when the request names none.
pub const DEFAULT_CONNECTIONS: u64 = 10;

/// Requests per second assumed for each connection when no rate is given.
pub const DEFAULT_RATE_PER_CONNECTION: u64 = 10;

/// Immutable parameters of one run.
#[derive(Clone, Copy, Debug, PartialEq, Eq, Structural)]
pub struct LoadTestConfig {
    pub duration_seconds: u64,
    pub connections: u64,
    pub rate_per_second: Option<u64>,
}

/// The rate that drives pacing: the configured one, or ten per connection.
pub open spec fn effective_rate_spec(c: LoadTestConfig) -> int {
    match c.rate_per_second {
        Some(r) => r as int,
        None => c.connections * DEFAULT_RATE_PER_CONNECTION,
    }
}

/// Pause between two requests of one worker, in milliseconds: one second
/// divided by the effective rate (taken as at least one).
pub open spec fn request_interval_ms_spec(c: LoadTestConfig) -> int {
    let rate = effective_rate_spec(c);
    if rate < 1 {
        1000
    } else {
        1000int / rate
    }
}

impl LoadTestConfig {
    /// The effective rate, saturated at the largest `u64`.
    pub fn effective_rate(&self) -> (r: u64)
        ensures
            r as int == if effective_rate_spec(*self) > u64::MAX as int {
                u64::MAX as int
            } else {
                effective_rate_spec(*self)
            },
    {
        match self.rate_per_second {
            Some(r) => r,
            None => if self.connections > u64::MAX / DEFAULT_RATE_PER_CONNECTION {
                u64::MAX
            } else {
                self.connections * DEFAULT_RATE_PER_CONNECTION
            },
        }
    }

    /// The pacing interval that every worker of the run applies on its own.
    pub fn request_interval_ms(&self) -> (r: u64)
        ensures
            r as int == request_interval_ms_spec(*self),
    {
        let rate = self.effective_rate();
        if rate < 1 {
            1000
        } else {
            proof {
                let e = effective_rate_spec(*self);
                if e > u64::MAX as int {
                    let m = u64::MAX as int;
                    assert(1000int / m == 0) by (nonlinear_arith)
                        requires m > 1000;
                    assert(1000int / e == 0) by (nonlinear_arith)
                        requires e > 1000;
                }
            }
            1000u64 / rate
        }
    }
}

/// What a caller sends to start a side-by-side comparison of two targets.
#[derive(Clone, Debug)]
pub struct StartTestRequest {
    pub node_url: String,
    pub bun_url: String,
    pub duration_seconds: Option<u64>,
    pub connections: Option<u64>,
    pub rate_per_second: Option<u64>,
}

/// The run parameters a start request asks for, with defaults filled in.
pub open spec fn request_config_spec(r: StartTestRequest) -> LoadTestConfig {
    LoadTestConfig {
        duration_seconds: match r.duration_seconds {
            Some(d) => d,
            None => DEFAULT_DURATION_SECONDS,
        },
        connections: match r.connections {
            Some(c) => c,
            None => DEFAULT_CONNECTIONS,
        },
        rate_per_second: r.rate_per_second,
    }
}

impl StartTestRequest {
    /// The configuration both runs of this request share.
    pub fn config(&self) -> (c: LoadTestConfig)
        ensures
            c == request_config_spec(*self),
    {
        LoadTestConfig {
            duration_seconds: match self.duration_seconds {
                Some(d) => d,
                None => DEFAULT_DURATION_SECONDS,
            },
            connections: match self.connections {
                Some(c) => c,
                None => DEFAULT_CONNECTIONS,
            },
            rate_per_second: self.rate_per_second,
        }
    }
}

/// The answer to a start request.
#[derive(Clone, Debug)]
pub struct StartTestResponse {
    pub test_id: String,
    pub message: String,
}

} // verus!
