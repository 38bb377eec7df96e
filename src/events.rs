//! Lifecycle, progress and completion events, and the bus that fans them
//! out to any number of subscribers.
use vstd::prelude::*;

use tokio::sync::broadcast::Sender;

use crate::config::LoadTestConfig;
use crate::progress::ProgressSample;
use crate::stats::LoadTestResult;

verus! {

#[verifier::external_type_specification]
#[verifier::external_body]
#[verifier::reject_recursive_types(T)]
pub struct ExSender<T>(Sender<T>);

/// Relies on `Clone for broadcast::Sender`: another handle to the same
/// channel.
pub assume_specification<T>[ <Sender<T> as Clone>::clone ](s: &Sender<T>) -> Sender<T>;

/// One event of a run; timestamps are milliseconds since the Unix epoch.
#[derive(Clone, Debug)]
pub enum Event {
    TestStarted { test_id: String, config: LoadTestConfig, timestamp_ms: i64 },
    Progress { test_id: String, runtime: String, sample: ProgressSample, timestamp_ms: i64 },
    TestCompleted { test_id: String, runtime: String, results: LoadTestResult, timestamp_ms: i64 },
    TestError { test_id: String, runtime: String, error: String, timestamp_ms: i64 },
}

/// Relies on `chrono::Utc::now` and `DateTime::timestamp_millis`: the
/// current time, of which nothing can be promised.
#[verifier::external_body]
pub(crate) fn now_millis() -> (r: i64) {
    chrono::Utc::now().timestamp_millis()
}

/// Relies on `broadcast::Sender::new`, which panics only for a capacity of
/// zero or above `usize::MAX / 2`.
#[verifier::external_body]
fn new_sender(capacity: usize) -> (r: Sender<Event>)
    requires
        0 < capacity <= usize::MAX / 2,
{
    Sender::new(capacity)
}

/// Relies on `broadcast::Sender::send`: it never blocks, and fails only
/// when no receiver is attached, handing the value back. Returns how many
/// receivers the event was queued for, zero when none.
#[verifier::external_body]
fn send_event(tx: &Sender<Event>, ev: Event) -> (r: usize) {
    match tx.send(ev) {
        Ok(n) => n,
        Err(_) => 0,
    }
}

/// Multi-producer, multi-consumer fan-out with a bounded backlog per
/// subscriber; a subscriber that falls behind loses the oldest events.
#[derive(Clone)]
pub struct EventBus {
    tx: Sender<Event>,
    sent: Ghost<Seq<Event>>,
}

impl EventBus {
    /// The events published through this handle, oldest first.
    pub closed spec fn published(&self) -> Seq<Event> {
        self.sent@
    }

    /// A bus whose subscribers each buffer up to `capacity` events.
    pub fn new(capacity: usize) -> (r: EventBus)
        requires
            0 < capacity <= usize::MAX / 2,
        ensures
            r.published() == Seq::<Event>::empty(),
    {
        EventBus { tx: new_sender(capacity), sent: Ghost(Seq::empty()) }
    }

    /// The sending handle, from which subscribers are made.
    pub fn sender(&self) -> &Sender<Event> {
        &self.tx
    }

    /// Publishes an event and returns how many subscribers will see it. It
    /// has no precondition and no failure: with no subscriber attached the
    /// event is dropped and zero is returned.
    pub fn publish(&mut self, ev: Event) -> (delivered: usize)
        ensures
            final(self).published() == old(self).published().push(ev),
    {
        let ghost e = ev;
        let n = send_event(&self.tx, ev);
        self.sent = Ghost(self.sent@.push(e));
        n
    }
}

} // verus!
