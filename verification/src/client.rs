//! The addresses a client requests to reach the two endpoints.

use vstd::prelude::*;
use vstd::string::StringExecFns;
use crate::router::{HEALTH_PATH, WORK_PATH};

verus! {

/// The URL of the liveness probe of the server at `address`: the address,
/// taken as it is, followed by the probe's path.
pub fn health_url(address: &str) -> (url: String)
    ensures
        url@ == address@ + HEALTH_PATH@,
{
    String::from_str(address).concat(HEALTH_PATH)
}

/// The URL that triggers one unit of work on the server at `address`: the
/// address, taken as it is, followed by the work path.
pub fn work_url(address: &str) -> (url: String)
    ensures
        url@ == address@ + WORK_PATH@,
{
    String::from_str(address).concat(WORK_PATH)
}

} // verus!
