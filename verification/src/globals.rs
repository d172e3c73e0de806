//! Settings shared by the backend.

use vstd::prelude::*;

verus! {

/// Seconds that a login request may take.
pub const TIMEOUT: u64 = 80;

/// The server that the GUI talks to until it is told another.
pub const DEFAULT_SERVER_URL: &'static str = "http://0.0.0.0:3000";

} // verus!
