//! Supervision and recovery for long-running multi-stream media pipelines:
//! per-stream lifecycle, retry and circuit-breaker policy, watchdog, health
//! roll-up and per-stream isolation bookkeeping.
use vstd::prelude::*;

pub mod backoff;
pub mod circuit;
pub mod classify;
pub mod error;
pub mod health;
pub mod isolation;
pub mod model;
pub mod pipeline;
pub mod recovery;
pub mod shared_map;
pub mod sinks;
pub mod sources;
pub mod state_machine;
pub mod stream;
pub mod table;
pub mod text;

verus! {

/// The library's version string.
pub fn version() -> (r: &'static str)
    ensures
        r@ == "0.1.0"@,
{
    "0.1.0"
}

} // verus!
