use vstd::prelude::*;

use crate::session::SessionInfo;

verus! {

/// Seconds between two expiry-check ticks.
pub const EXPIRY_CHECK_PERIOD_SECS: u64 = 300;

/// Seconds between two warning-check ticks.
pub const WARNING_CHECK_PERIOD_SECS: u64 = 60;

/// The fixed grace wait after expiry is observed, before the sync attempt, so
/// that an external refresh that is already under way can land first.
pub const GRACE_PERIOD_SECS: u64 = 30;

/// Remaining time (milliseconds) under which an expiry-check tick logs a
/// purely informational near-expiry notice.
pub const NEAR_EXPIRY_MS: i64 = 600_000;

/// What one expiry-check tick asks the host to do, given the session snapshot.
#[derive(Clone, Copy, Debug, PartialEq, Eq, Structural)]
pub enum ExpiryPlan {
    /// The session has expired: wait `GRACE_PERIOD_SECS`, then run the sync
    /// action once. A failed attempt is not retried within the tick; the next
    /// expiry-check tick is the implicit retry.
    SyncAfterGrace,
    /// Not expired, but under `NEAR_EXPIRY_MS` remain: log a diagnostic notice
    /// and do nothing else. Syncing is deferred until expiry is observed.
    NearExpiryNotice,
    /// Not expired and not close to it: nothing to do this tick.
    Idle,
}

/// The decision of one expiry-check tick. A sync is planned exactly when the
/// session is expired; the warning cadence never reaches this path, so no
/// other event source can plan a sync.
pub fn expiry_plan(info: &SessionInfo) -> (plan: ExpiryPlan)
    ensures
        plan == ExpiryPlan::SyncAfterGrace <==> info.is_expired,
        plan == ExpiryPlan::NearExpiryNotice <==> !info.is_expired && info.time_remaining < NEAR_EXPIRY_MS,
        plan == ExpiryPlan::Idle <==> !info.is_expired && info.time_remaining >= NEAR_EXPIRY_MS,
{
    if info.is_expired {
        ExpiryPlan::SyncAfterGrace
    } else if info.time_remaining < NEAR_EXPIRY_MS {
        ExpiryPlan::NearExpiryNotice
    } else {
        ExpiryPlan::Idle
    }
}

/// A best-effort desktop notification about a failed sync attempt.
pub struct SyncFailureNotice {
    /// Which targets the failed attempt covered.
    pub target: &'static str,
    /// The sync action's own error text.
    pub message: String,
}

/// What follows the sync attempt of an expiry-check tick: nothing on success;
/// on failure, a notice naming every target and carrying the action's error
/// text. The notice is produced unconditionally on failure — the
/// `sync_failures_notify` configuration flag is not consulted here.
pub fn sync_followup(sync_ok: bool, error_message: String) -> (notice: Option<SyncFailureNotice>)
    ensures
        sync_ok <==> notice is None,
        !sync_ok ==> (notice matches Some(n) && n.target@ == "all targets"@ && n.message == error_message),
{
    if sync_ok {
        None
    } else {
        Some(SyncFailureNotice { target: "all targets", message: error_message })
    }
}

} // verus!
