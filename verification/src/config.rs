//! The configuration of the process: the address it listens on.

use vstd::prelude::*;
use vstd::string::StringExecFns;

verus! {

/// The address the server binds when none is configured.
pub const DEFAULT_ADDRESS: &'static str = "127.0.0.1:9022";

/// The address to bind, a `host:port` text: the configured one where there
/// is one, taken as it is, and [`DEFAULT_ADDRESS`] otherwise.
pub fn bind_address(configured: Option<String>) -> (address: String)
    ensures
        configured is Some ==> address@ == configured->0@,
        configured is None ==> address@ == DEFAULT_ADDRESS@,
{
    match configured {
        Some(address) => address,
        None => String::from_str(DEFAULT_ADDRESS),
    }
}

} // verus!
