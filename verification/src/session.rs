use vstd::prelude::*;

verus! {

/// A snapshot of the watched session, produced fresh by the session inspector
/// on every query and never cached across decision cycles.
#[derive(Clone, Copy, Debug, PartialEq, Eq, Structural)]
pub struct SessionInfo {
    /// Whether the session has already expired.
    pub is_expired: bool,
    /// Milliseconds until expiry; zero or negative once the expiry instant has
    /// passed.
    pub time_remaining: i64,
}

} // verus!
