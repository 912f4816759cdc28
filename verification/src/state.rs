//! The state shared by all request handlers.

use vstd::prelude::*;
use crate::worker::WorkerService;

verus! {

/// What every handler can read: the one executor of the process.
///
/// It is built once, before the first request, and only ever borrowed
/// immutably afterwards, so handlers that run at the same time need no lock.
#[derive(Debug)]
pub struct AppState {
    /// The executor that performs the units of work.
    pub worker: WorkerService,
}

impl AppState {
    /// The executor this state owns.
    pub fn executor(&self) -> (worker: &WorkerService)
        ensures
            *worker == self.worker,
    {
        &self.worker
    }
}

impl Default for AppState {
    /// A state around a fresh executor.
    fn default() -> (state: Self)
        ensures
            state == (AppState { worker: WorkerService }),
    {
        let worker = WorkerService;
        Self { worker }
    }
}

} // verus!
