//! A minimal worker behind two HTTP endpoints: a liveness probe and a trigger
//! that performs one unit of work.
//!
//! This library holds every decision the worker takes: how long a unit of
//! work lasts, which handler a request reaches, and what is answered. It never
//! blocks and never touches a socket. The caller that owns the listener hands
//! each request's method and path in, waits for as long as the returned
//! [`handlers::Outcome`] says, and then sends the answer it describes.

pub mod client;
pub mod config;
pub mod handlers;
pub mod router;
pub mod state;
pub mod text;
pub mod worker;

pub use router::app_routes;
pub use state::AppState;
