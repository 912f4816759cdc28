//! The executor of one unit of work.
//!
//! A unit of work is modelled by its duration alone: executing it means
//! occupying the calling task for a number of milliseconds.

use vstd::prelude::*;

verus! {

/// How long a unit of work lasts, in milliseconds, when no hint is given.
pub const DEFAULT_DELAY: u64 = 20;

/// The duration, in milliseconds, of a unit of work requested with `delay_ms`:
/// the hint where there is one, the default otherwise.
pub open spec fn work_duration(delay_ms: Option<u64>) -> u64 {
    match delay_ms {
        Some(d) => d,
        None => DEFAULT_DELAY,
    }
}

/// Executes units of work. It has no fields and is never mutated, so one
/// value can be shared by any number of concurrent handlers.
#[derive(Debug, Clone, Default)]
pub struct WorkerService;

impl WorkerService {
    /// Decides one unit of work and returns the number of milliseconds for
    /// which the calling task has to block before the work counts as done.
    ///
    /// A hint, when present, is taken as it is, with no upper bound; without
    /// one the work lasts [`DEFAULT_DELAY`] milliseconds.
    pub fn handle_work(&self, delay_ms: Option<u64>) -> (wait: u64)
        ensures
            wait == work_duration(delay_ms),
            delay_ms is None ==> wait == DEFAULT_DELAY,
            delay_ms is Some ==> wait == delay_ms->0,
            delay_ms is Some && delay_ms->0 < DEFAULT_DELAY ==> wait < DEFAULT_DELAY,
            delay_ms is Some && delay_ms->0 > DEFAULT_DELAY ==> wait > DEFAULT_DELAY,
    {
        match delay_ms {
            Some(d) => d,
            None => DEFAULT_DELAY,
        }
    }
}

} // verus!
