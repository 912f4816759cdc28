//! The request handlers and what they answer.

use vstd::prelude::*;
use crate::state::AppState;
use crate::worker::work_duration;

verus! {

/// The status of a request that was handled.
pub const STATUS_OK: u16 = 200;

/// The status of a request that no route matches.
pub const STATUS_NOT_FOUND: u16 = 404;

/// What becomes of one request: how long the task that serves it blocks, and
/// the answer it sends once that time has passed.
#[derive(Debug, Clone, PartialEq, Eq)]
pub struct Outcome {
    /// Milliseconds for which the serving task blocks before it answers.
    pub wait_ms: u64,
    /// The HTTP status of the answer.
    pub status: u16,
    /// The body of the answer.
    pub body: Vec<u8>,
}

/// The mathematical value of an [`Outcome`].
pub struct OutcomeView {
    pub wait_ms: u64,
    pub status: u16,
    pub body: Seq<u8>,
}

impl View for Outcome {
    type V = OutcomeView;

    open spec fn view(&self) -> OutcomeView {
        OutcomeView { wait_ms: self.wait_ms, status: self.status, body: self.body@ }
    }
}

/// An answer with no body, sent after `wait_ms` milliseconds.
pub open spec fn empty_answer(wait_ms: u64, status: u16) -> OutcomeView {
    OutcomeView { wait_ms, status, body: Seq::empty() }
}

/// The outcome of a liveness probe: an immediate, empty 200.
pub open spec fn health_outcome() -> OutcomeView {
    empty_answer(0, STATUS_OK)
}

/// The outcome of a work request: an empty 200 after one unit of work of the
/// default duration.
pub open spec fn work_outcome() -> OutcomeView {
    empty_answer(work_duration(None), STATUS_OK)
}

/// The outcome of a request that no route matches: an immediate, empty 404.
pub open spec fn not_found_outcome() -> OutcomeView {
    empty_answer(0, STATUS_NOT_FOUND)
}

/// Answers a liveness probe.
///
/// It looks at nothing, so it says only that the process is up and serving,
/// and it never fails.
pub fn handle_health() -> (res: Result<Outcome, ()>)
    ensures
        res is Ok,
        res->Ok_0@ == health_outcome(),
{
    Ok(Outcome { wait_ms: 0, status: STATUS_OK, body: Vec::new() })
}

/// Answers a work request: has the executor of `state` perform one unit of
/// work without a hint, and answers when it is done.
///
/// Nothing of the request reaches the executor, so the work always lasts the
/// default duration. It never fails.
pub fn handle_work(state: &AppState) -> (res: Result<Outcome, ()>)
    ensures
        res is Ok,
        res->Ok_0@ == work_outcome(),
{
    let wait_ms = state.executor().handle_work(None);
    Ok(Outcome { wait_ms, status: STATUS_OK, body: Vec::new() })
}

/// Answers a request that no route matches.
pub fn handle_not_found() -> (outcome: Outcome)
    ensures
        outcome@ == not_found_outcome(),
{
    Outcome { wait_ms: 0, status: STATUS_NOT_FOUND, body: Vec::new() }
}

} // verus!
