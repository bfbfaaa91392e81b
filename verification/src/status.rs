//! The single high-level sync state read by observers and written by the
//! orchestration engine.

use vstd::prelude::*;

verus! {

/// Current high-level sync state.  Exactly one variant is active at a time;
/// `Syncing` holds only strictly between the start and the end of one sync
/// run.  `Error` carries the human-readable message of the failing target.
#[derive(Debug, PartialEq)]
pub enum SyncStatus {
    /// Everything is synced.
    Idle,
    /// A sync run is in progress.
    Syncing,
    /// The external tool reported a conflict to resolve.
    Conflict,
    /// A target failed; the message comes from the failing invocation.
    Error(String),
    /// Not configured or not logged in.
    NotConfigured,
}

/// Mathematical value of a `SyncStatus`: the error message is a character
/// sequence.
pub enum StatusView {
    Idle,
    Syncing,
    Conflict,
    Error(Seq<char>),
    NotConfigured,
}

impl View for SyncStatus {
    type V = StatusView;

    open spec fn view(&self) -> StatusView {
        match self {
            SyncStatus::Idle => StatusView::Idle,
            SyncStatus::Syncing => StatusView::Syncing,
            SyncStatus::Conflict => StatusView::Conflict,
            SyncStatus::Error(m) => StatusView::Error(m@),
            SyncStatus::NotConfigured => StatusView::NotConfigured,
        }
    }
}

impl Clone for SyncStatus {
    /// The clone denotes the same state, message included.
    fn clone(&self) -> (r: Self)
        ensures
            r@ == self@,
    {
        match self {
            SyncStatus::Idle => SyncStatus::Idle,
            SyncStatus::Syncing => SyncStatus::Syncing,
            SyncStatus::Conflict => SyncStatus::Conflict,
            SyncStatus::Error(m) => SyncStatus::Error(m.clone()),
            SyncStatus::NotConfigured => SyncStatus::NotConfigured,
        }
    }
}

} // verus!
