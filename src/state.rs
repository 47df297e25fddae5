//! Process-wide facts reported by the status endpoint.
use std::time::Instant;
use vstd::prelude::*;

verus! {

/// The version that the status endpoint reports.
pub const VERSION: &'static str = "0.1.0";

pub struct State {
    pub start_time: Instant,
    pub max_concurrent_jobs: Option<usize>,
    pub version: &'static str,
}

impl State {
    pub fn new(max_jobs: Option<usize>) -> (r: State)
        ensures
            r.max_concurrent_jobs == max_jobs,
            r.version@ == VERSION@,
    {
        State { start_time: Instant::now(), max_concurrent_jobs: max_jobs, version: VERSION }
    }

    /// Whole seconds since this state was created, as the monotonic clock tells.
    pub fn uptime(&self) -> u64 {
        self.start_time.elapsed().as_secs()
    }
}

} // verus!
