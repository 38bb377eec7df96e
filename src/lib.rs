//! A load-test engine: paced request workers, a shared statistics
//! aggregator with a latency histogram and an error taxonomy, a progress
//! sampler, a per-run lifecycle and an event fan-out.
pub mod config;
pub mod status;
pub mod tally;
pub mod histogram;
pub mod labels;
pub mod stats;
pub mod progress;
pub mod events;
pub mod load_test;
pub mod registry;
