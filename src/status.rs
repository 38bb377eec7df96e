use vstd::prelude::*;

verus! {

/// Lifecycle of a run. `Running` is the initial state; the other three are
/// terminal.
#[derive(Clone, Copy, Debug, PartialEq, Eq, Structural)]
pub enum LoadTestStatus {
    Running,
    Completed,
    Failed,
    Stopped,
}

impl LoadTestStatus {
    pub open spec fn is_terminal_spec(self) -> bool {
        !(self is Running)
    }

    /// Whether no transition can leave this state.
    pub fn is_terminal(&self) -> (r: bool)
        ensures
            r == self.is_terminal_spec(),
    {
        match self {
            LoadTestStatus::Running => false,
            _ => true,
        }
    }

    /// State after an explicit stop request: a running run becomes
    /// `Stopped`; a terminal state is kept.
    pub open spec fn after_stop_spec(self) -> LoadTestStatus {
        match self {
            LoadTestStatus::Running => LoadTestStatus::Stopped,
            other => other,
        }
    }

    pub fn after_stop(self) -> (r: LoadTestStatus)
        ensures
            r == self.after_stop_spec(),
            self is Running ==> r is Stopped,
            self.is_terminal_spec() ==> r == self,
    {
        match self {
            LoadTestStatus::Running => LoadTestStatus::Stopped,
            other => other,
        }
    }

    /// State once every worker has finished: a running run becomes
    /// `Completed`; a terminal state, `Stopped` included, is kept.
    pub open spec fn after_completion_spec(self) -> LoadTestStatus {
        match self {
            LoadTestStatus::Running => LoadTestStatus::Completed,
            other => other,
        }
    }

    pub fn after_completion(self) -> (r: LoadTestStatus)
        ensures
            r == self.after_completion_spec(),
            self is Running ==> r is Completed,
            self.is_terminal_spec() ==> r == self,
    {
        match self {
            LoadTestStatus::Running => LoadTestStatus::Completed,
            other => other,
        }
    }

    /// State when the run could not be set up before any worker started.
    pub open spec fn after_setup_failure_spec(self) -> LoadTestStatus {
        match self {
            LoadTestStatus::Running => LoadTestStatus::Failed,
            other => other,
        }
    }

    pub fn after_setup_failure(self) -> (r: LoadTestStatus)
        ensures
            r == self.after_setup_failure_spec(),
            self is Running ==> r is Failed,
            self.is_terminal_spec() ==> r == self,
    {
        match self {
            LoadTestStatus::Running => LoadTestStatus::Failed,
            other => other,
        }
    }

    pub open spec fn is_evictable_spec(self) -> bool {
        self is Completed || self is Failed
    }

    /// Whether the registry sweep removes a run in this state: `Completed`
    /// and `Failed` runs go, `Running` and `Stopped` ones stay.
    pub fn is_evictable(&self) -> (r: bool)
        ensures
            r == self.is_evictable_spec(),
    {
        match self {
            LoadTestStatus::Completed => true,
            LoadTestStatus::Failed => true,
            _ => false,
        }
    }
}

/// A stop request before natural completion leaves the run `Stopped`, and
/// the completion that follows keeps it so; no transition leaves a
/// terminal state.
pub proof fn lemma_stop_wins_over_completion(s: LoadTestStatus)
    requires
        s is Running,
    ensures
        s.after_stop_spec() is Stopped,
        s.after_stop_spec().after_completion_spec() is Stopped,
        s.after_stop_spec().after_setup_failure_spec() is Stopped,
        s.after_stop_spec().after_stop_spec() is Stopped,
{
}

} // verus!
