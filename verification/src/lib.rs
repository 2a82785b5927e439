//! Decision core of a session watchdog daemon.
//!
//! The daemon watches one externally managed credential session and drives two
//! time-based behaviours: a sync attempt shortly after the session is seen to
//! have expired, and advance warnings at configured lead times before expiry.
//! This crate holds the verified decision logic — what each timer tick must do,
//! which warning is due, and the single-use shutdown handling — while the
//! hosting process supplies the timers, the session inspector, the sync action
//! and the notifier, and performs whatever the decisions ask for.

pub mod config;
pub mod daemon;
pub mod expiry;
pub mod paths;
pub mod session;
pub mod warnings;
