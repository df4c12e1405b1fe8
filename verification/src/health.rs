//! Reporting whether the backend is healthy.

use vstd::prelude::*;

verus! {

/// Reports whether the backend is healthy: `Ok(true)` when it is, `Ok(false)`
/// when it is known to be down, and an error with a description when the
/// check itself could not be made.
///
/// The bridge does not probe the backend. Until it does, every call answers
/// `Ok(true)`, also while no backend can be reached, so the answer says
/// nothing about the backend's real state.
pub fn check_backend_health() -> (status: Result<bool, String>)
    ensures
        status == Ok::<bool, String>(true),
{
    Ok(true)
}

} // verus!
