use vstd::prelude::*;

verus! {

/// The settings a decision cycle reads. The host reloads (or re-injects) the
/// configuration at the top of each cycle, so the decision logic never assumes
/// that two cycles saw the same values.
#[derive(Clone, Debug)]
pub struct DaemonConfig {
    /// Seconds to wait after expiry before syncing, as configured. The value is
    /// read on every expiry-check cycle but is deliberately inert: the grace
    /// wait is fixed at `crate::expiry::GRACE_PERIOD_SECS`.
    pub sync_delay_after_expiry: u64,
    /// Minute thresholds at which a session warning is due, scanned in exactly
    /// this order (never re-sorted).
    pub session_warnings: Vec<u64>,
    /// Whether sync failures should raise a desktop notification. The failure
    /// path currently notifies unconditionally and does not consult this flag.
    pub sync_failures_notify: bool,
}

} // verus!
