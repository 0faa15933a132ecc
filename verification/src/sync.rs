//! Errors of the sync engine and the decisions of its scheduler.

use vstd::prelude::*;

use crate::text::{push_str, to_string};

verus! {

/// Error of the sync engine.
#[derive(Debug, Clone, PartialEq, Eq)]
pub enum SyncError {
    /// An I/O operation failed (with the I/O error's text).
    IoError(String),
    /// A file is locked (its path).
    FileLocked(String),
    /// The disk is full.
    DiskFull,
    /// Access to a path was denied.
    PermissionDenied(String),
    /// A path does not exist.
    PathNotFound(String),
    /// A domain rule was broken (the rule's text).
    DomainError(String),
}

/// Text of a sync error.
pub open spec fn sync_error_text(e: SyncError) -> Seq<char> {
    match e {
        SyncError::IoError(m) => "IO error: "@ + m@,
        SyncError::FileLocked(p) => "File locked: "@ + p@,
        SyncError::DiskFull => "Disk full"@,
        SyncError::PermissionDenied(p) => "Permission denied: "@ + p@,
        SyncError::PathNotFound(p) => "Path not found: "@ + p@,
        SyncError::DomainError(m) => "Domain error: "@ + m@,
    }
}

impl SyncError {
    /// The text of this error.
    pub fn to_string(&self) -> (r: String)
        ensures
            r@ == sync_error_text(*self),
    {
        let (prefix, rest): (&str, Option<&String>) = match self {
            SyncError::IoError(m) => ("IO error: ", Some(m)),
            SyncError::FileLocked(p) => ("File locked: ", Some(p)),
            SyncError::DiskFull => ("Disk full", None),
            SyncError::PermissionDenied(p) => ("Permission denied: ", Some(p)),
            SyncError::PathNotFound(p) => ("Path not found: ", Some(p)),
            SyncError::DomainError(m) => ("Domain error: ", Some(m)),
        };
        let mut s = to_string(prefix);
        match rest {
            Some(m) => push_str(&mut s, m.as_str()),
            None => {},
        }
        proof { assert(s@ =~= sync_error_text(*self)); }
        s
    }
}

/// What woke the scheduler up.
#[derive(Debug, Clone, Copy, PartialEq, Eq)]
pub enum SchedulerWake {
    /// A change event arrived; it joins the debounce queue.
    Change,
    /// The poll timer fired; `settled` events left the debounce queue.
    Tick,
    /// The change channel closed; `settled` events left the debounce queue.
    Closed,
}

/// What the scheduler does after waking up.
#[derive(Debug, Clone, Copy, PartialEq, Eq)]
pub struct SchedulerAction {
    /// Put the received event in the debounce queue.
    pub enqueue: bool,
    /// Raise the sync request flag.
    pub request_sync: bool,
    /// Leave the loop.
    pub stop: bool,
}

/// The scheduler's decision: events are queued; settled events, at a tick
/// or when the channel closes, request a sync; a closed channel ends the loop.
pub fn scheduler_step(wake: SchedulerWake, settled: usize) -> (r: SchedulerAction)
    ensures
        r.enqueue == (wake == SchedulerWake::Change),
        r.request_sync == (wake != SchedulerWake::Change && settled > 0),
        r.stop == (wake == SchedulerWake::Closed),
{
    match wake {
        SchedulerWake::Change => SchedulerAction { enqueue: true, request_sync: false, stop: false },
        SchedulerWake::Tick => SchedulerAction { enqueue: false, request_sync: settled > 0, stop: false },
        SchedulerWake::Closed => SchedulerAction { enqueue: false, request_sync: settled > 0, stop: true },
    }
}

} // verus!
