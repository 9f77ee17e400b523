//! Liveness check: a fixed response that identifies the service as reachable.

use vstd::prelude::*;

verus! {

/// The canonical liveness payload. It never touches storage and always
/// returns the same JSON text.
pub fn ping_body() -> (s: String)
    ensures
        s@ == "{\"ping\":\"pong\"}"@,
{
    String::from_str("{\"ping\":\"pong\"}")
}

} // verus!
