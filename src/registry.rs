//! Keys under which the runs of a comparison are registered.
use vstd::prelude::*;

verus! {

/// The two runtimes a comparison runs side by side.
pub open spec fn runtime_labels() -> Seq<Seq<char>> {
    seq!["node"@, "bun"@]
}

/// A run's key: the logical test id and the runtime label, kept apart so
/// that no choice of label can make two keys collide.
#[derive(Clone, Debug, PartialEq, Eq, Hash)]
pub struct RunKey {
    pub test_id: String,
    pub runtime: String,
}

impl RunKey {
    pub fn new(test_id: &str, runtime: &str) -> (r: RunKey)
        ensures
            r.test_id@ == test_id@,
            r.runtime@ == runtime@,
    {
        RunKey { test_id: String::from_str(test_id), runtime: String::from_str(runtime) }
    }
}

/// The keys of every run of one comparison, one per runtime label, in the
/// order of `runtime_labels`.
pub fn run_keys(test_id: &str) -> (r: Vec<RunKey>)
    ensures
        r.len() == runtime_labels().len(),
        forall|i: int|
            0 <= i < r.len() ==> (#[trigger] r[i]).test_id@ == test_id@ && r[i].runtime@
                == runtime_labels()[i],
{
    let mut r: Vec<RunKey> = Vec::new();
    r.push(RunKey::new(test_id, "node"));
    r.push(RunKey::new(test_id, "bun"));
    proof {
        assert(r[0].runtime@ == runtime_labels()[0]);
        assert(r[1].runtime@ == runtime_labels()[1]);
    }
    r
}

} // verus!
