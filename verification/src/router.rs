//! The routing table: which handler a request reaches.

use vstd::pervasive::unreached;
use vstd::prelude::*;
use crate::handlers::{
    empty_answer, handle_health, handle_not_found, handle_work, health_outcome,
    not_found_outcome, work_outcome, Outcome, OutcomeView, STATUS_NOT_FOUND, STATUS_OK,
};
use crate::worker::DEFAULT_DELAY;
use crate::state::AppState;
use crate::text::same_text;

verus! {

/// The one method that is routed.
pub const GET: &'static str = "GET";

/// The path of the liveness probe.
pub const HEALTH_PATH: &'static str = "/v1/health";

/// The path that triggers one unit of work.
pub const WORK_PATH: &'static str = "/v1/work";

/// Where a request goes.
#[derive(Debug, Clone, Copy, PartialEq, Eq, Structural)]
pub enum Route {
    /// To the health handler.
    Health,
    /// To the work handler.
    Work,
    /// Nowhere: the request matches no route.
    NotFound,
}

/// The routing table. A request is routed by its method and its path, both
/// compared character by character: `GET /v1/health` and `GET /v1/work` have
/// a handler, and no other combination has one.
pub open spec fn route_of(method: Seq<char>, path: Seq<char>) -> Route {
    if method == GET@ && path == HEALTH_PATH@ {
        Route::Health
    } else if method == GET@ && path == WORK_PATH@ {
        Route::Work
    } else {
        Route::NotFound
    }
}

/// What the handler behind `route` answers.
pub open spec fn outcome_of(route: Route) -> OutcomeView {
    match route {
        Route::Health => health_outcome(),
        Route::Work => work_outcome(),
        Route::NotFound => not_found_outcome(),
    }
}

/// What the server answers to a request with this method and path.
pub open spec fn respond(method: Seq<char>, path: Seq<char>) -> OutcomeView {
    outcome_of(route_of(method, path))
}

/// Looks a request up in the routing table.
pub fn route(method: &str, path: &str) -> (r: Route)
    ensures
        r == route_of(method@, path@),
{
    if !same_text(method, GET) {
        Route::NotFound
    } else if same_text(path, HEALTH_PATH) {
        Route::Health
    } else if same_text(path, WORK_PATH) {
        Route::Work
    } else {
        Route::NotFound
    }
}

/// The routes of the application, bound to the state their handlers read.
#[derive(Debug)]
pub struct Router {
    state: AppState,
}

impl Router {
    /// The state that the handlers of this router read.
    pub closed spec fn state(&self) -> AppState {
        self.state
    }

    /// Serves one request: routes it and runs the handler it reaches.
    ///
    /// The router is only borrowed, and the answer depends on nothing but the
    /// method and the path.
    pub fn call(&self, method: &str, path: &str) -> (outcome: Outcome)
        ensures
            outcome@ == respond(method@, path@),
    {
        match route(method, path) {
            Route::Health => match handle_health() {
                Ok(outcome) => outcome,
                Err(_) => unreached(),
            },
            Route::Work => match handle_work(&self.state) {
                Ok(outcome) => outcome,
                Err(_) => unreached(),
            },
            Route::NotFound => handle_not_found(),
        }
    }
}

/// Builds the router of the application around `state`.
pub fn app_routes(state: AppState) -> (router: Router)
    ensures
        router.state() == state,
{
    Router { state }
}

/// Every `GET /v1/health` is answered at once with an empty 200. The answer
/// is a function of the request alone: no state enters it, nor anything that
/// was served before or is being served meanwhile.
pub proof fn lemma_health_is_always_ok(method: Seq<char>, path: Seq<char>)
    requires
        method == GET@,
        path == HEALTH_PATH@,
    ensures
        route_of(method, path) == Route::Health,
        respond(method, path) == empty_answer(0, STATUS_OK),
        respond(method, path).status == 200,
{
}

/// Every `GET /v1/work` is answered with an empty 200, and not before the
/// default duration of a unit of work has passed.
pub proof fn lemma_work_takes_the_default(method: Seq<char>, path: Seq<char>)
    requires
        method == GET@,
        path == WORK_PATH@,
    ensures
        route_of(method, path) == Route::Work,
        respond(method, path) == empty_answer(DEFAULT_DELAY, STATUS_OK),
        respond(method, path).status == 200,
        respond(method, path).wait_ms >= DEFAULT_DELAY,
{
    lemma_routes_are_distinct();
}

/// A request that is not a `GET`, or whose path is neither of the two routed
/// paths, is answered at once with an empty 404.
pub proof fn lemma_unrouted_is_not_found(method: Seq<char>, path: Seq<char>)
    requires
        method != GET@ || (path != HEALTH_PATH@ && path != WORK_PATH@),
    ensures
        route_of(method, path) == Route::NotFound,
        respond(method, path) == empty_answer(0, STATUS_NOT_FOUND),
        respond(method, path).status == 404,
{
}

/// A request is answered with a 200 exactly when a route matches it, and
/// with a 404 otherwise: there is no third status.
pub proof fn lemma_status_is_200_or_404(method: Seq<char>, path: Seq<char>)
    ensures
        respond(method, path).status == 200 <==> route_of(method, path) != Route::NotFound,
        respond(method, path).status == 404 <==> route_of(method, path) == Route::NotFound,
        respond(method, path).body == Seq::<u8>::empty(),
{
}

/// The two routed paths differ, so no request matches both routes.
pub proof fn lemma_routes_are_distinct()
    ensures
        HEALTH_PATH@ != WORK_PATH@,
{
    reveal_strlit("/v1/health");
    reveal_strlit("/v1/work");
    assert(HEALTH_PATH@.len() == 10);
    assert(WORK_PATH@.len() == 8);
}

} // verus!
