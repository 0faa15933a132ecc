//! Space reclamation through file dehydration.
//!
//! A file may lose its cached content (go back to a placeholder) when it is
//! `Hydrated`, has no open handle and has a remote id. Sweeps start when the
//! cache usage reaches the policy threshold and stop once usage would drop
//! to 80% of it. The database query, the cache removal and the state update
//! are performed by the caller; this module decides and keeps the report.

use vstd::prelude::*;

use crate::config::FuseConfig;
use crate::error::{error_text, FuseError};
use crate::inode::InodeTable;
use crate::state::{state_debug, ItemState, UniqueId};
use crate::text::{decimal, push_decimal, push_str};

verus! {

/// Bytes in one GiB.
pub const GIB: u64 = 1073741824;

/// Policy configuration for automatic dehydration.
#[derive(Debug, Clone, Copy)]
pub struct DehydrationPolicy {
    /// Maximum cache size in bytes.
    pub cache_max_bytes: u64,
    /// Percentage of `cache_max_bytes` that triggers dehydration (0-100).
    pub threshold_percent: u8,
    /// Maximum age in days before a cached file becomes eligible for dehydration.
    pub max_age_days: u32,
    /// Interval in minutes between dehydration sweeps.
    pub interval_minutes: u32,
}

impl DehydrationPolicy {
    /// Usage in bytes at which dehydration starts.
    pub open spec fn spec_threshold_bytes(&self) -> int {
        (self.cache_max_bytes * self.threshold_percent) / 100
    }

    /// A policy from the filesystem configuration (GiB converted to bytes).
    pub fn from_config(config: &FuseConfig) -> (r: DehydrationPolicy)
        ensures
            r.cache_max_bytes == config.cache_max_size_gb * GIB,
            r.threshold_percent == config.dehydration_threshold_percent,
            r.max_age_days == config.dehydration_max_age_days,
            r.interval_minutes == config.dehydration_interval_minutes,
    {
        let gb = config.cache_max_size_gb as u64;
        assert(gb * GIB <= u64::MAX) by (nonlinear_arith)
            requires gb <= u32::MAX;
        DehydrationPolicy {
            cache_max_bytes: gb * GIB,
            threshold_percent: config.dehydration_threshold_percent,
            max_age_days: config.dehydration_max_age_days,
            interval_minutes: config.dehydration_interval_minutes,
        }
    }

    /// The threshold in bytes that triggers dehydration.
    pub fn threshold_bytes(&self) -> (r: u64)
        requires
            self.cache_max_bytes * self.threshold_percent <= u64::MAX,
        ensures
            r == self.spec_threshold_bytes(),
    {
        (self.cache_max_bytes * self.threshold_percent as u64) / 100
    }
}

impl Default for DehydrationPolicy {
    /// 10 GiB cache, 80% threshold, 30 days, hourly sweeps.
    fn default() -> (r: DehydrationPolicy)
        ensures
            r.cache_max_bytes == 10 * GIB,
            r.threshold_percent == 80,
            r.max_age_days == 30,
            r.interval_minutes == 60,
    {
        DehydrationPolicy {
            cache_max_bytes: 10 * GIB,
            threshold_percent: 80,
            max_age_days: 30,
            interval_minutes: 60,
        }
    }
}

/// Report of a dehydration operation.
#[derive(Debug, Clone)]
pub struct DehydrationReport {
    /// Number of files successfully dehydrated.
    pub dehydrated_count: usize,
    /// Total bytes freed by dehydration.
    pub bytes_freed: u64,
    /// Number of files skipped (open handles, wrong state, ...).
    pub skipped_count: usize,
    /// Number of errors encountered.
    pub error_count: usize,
    /// Error messages for failed items.
    pub errors: Vec<String>,
}

/// Whether `after` is `before` with one message `msg` appended.
pub open spec fn appended(before: Seq<String>, after: Seq<String>, msg: Seq<char>) -> bool {
    &&& after.len() == before.len() + 1
    &&& after.drop_last() == before
    &&& after.last()@ == msg
}

impl Default for DehydrationReport {
    /// A report with all counters zero and no message.
    fn default() -> (r: DehydrationReport)
        ensures
            r.dehydrated_count == 0,
            r.bytes_freed == 0,
            r.skipped_count == 0,
            r.error_count == 0,
            r.errors@.len() == 0,
    {
        DehydrationReport {
            dehydrated_count: 0,
            bytes_freed: 0,
            skipped_count: 0,
            error_count: 0,
            errors: Vec::new(),
        }
    }
}

impl DehydrationReport {
    /// Number of items this report accounts for.
    pub open spec fn processed(&self) -> int {
        self.dehydrated_count + self.skipped_count + self.error_count
    }

    /// Adds the counters of `other` to this report and appends its messages.
    pub fn merge(&mut self, other: DehydrationReport)
        requires
            old(self).dehydrated_count + other.dehydrated_count <= usize::MAX,
            old(self).bytes_freed + other.bytes_freed <= u64::MAX,
            old(self).skipped_count + other.skipped_count <= usize::MAX,
            old(self).error_count + other.error_count <= usize::MAX,
        ensures
            final(self).dehydrated_count == old(self).dehydrated_count + other.dehydrated_count,
            final(self).bytes_freed == old(self).bytes_freed + other.bytes_freed,
            final(self).skipped_count == old(self).skipped_count + other.skipped_count,
            final(self).error_count == old(self).error_count + other.error_count,
            final(self).errors@ == old(self).errors@ + other.errors@,
    {
        self.dehydrated_count = self.dehydrated_count + other.dehydrated_count;
        self.bytes_freed = self.bytes_freed + other.bytes_freed;
        self.skipped_count = self.skipped_count + other.skipped_count;
        self.error_count = self.error_count + other.error_count;
        let mut more = other.errors;
        self.errors.append(&mut more);
    }

    /// Counts one dehydrated file of `bytes` bytes.
    pub fn record_dehydrated(&mut self, bytes: u64)
        requires
            old(self).dehydrated_count < usize::MAX,
            old(self).bytes_freed + bytes <= u64::MAX,
        ensures
            final(self).dehydrated_count == old(self).dehydrated_count + 1,
            final(self).bytes_freed == old(self).bytes_freed + bytes,
            final(self).skipped_count == old(self).skipped_count,
            final(self).error_count == old(self).error_count,
            final(self).errors@ == old(self).errors@,
    {
        self.dehydrated_count = self.dehydrated_count + 1;
        self.bytes_freed = self.bytes_freed + bytes;
    }

    /// Counts one skipped file.
    pub fn record_skipped(&mut self)
        requires
            old(self).skipped_count < usize::MAX,
        ensures
            final(self).skipped_count == old(self).skipped_count + 1,
            final(self).dehydrated_count == old(self).dehydrated_count,
            final(self).bytes_freed == old(self).bytes_freed,
            final(self).error_count == old(self).error_count,
            final(self).errors@ == old(self).errors@,
    {
        self.skipped_count = self.skipped_count + 1;
    }

    /// Counts one skipped file and records why.
    pub fn record_skipped_with(&mut self, msg: String)
        requires
            old(self).skipped_count < usize::MAX,
        ensures
            final(self).skipped_count == old(self).skipped_count + 1,
            final(self).dehydrated_count == old(self).dehydrated_count,
            final(self).bytes_freed == old(self).bytes_freed,
            final(self).error_count == old(self).error_count,
            appended(old(self).errors@, final(self).errors@, msg@),
    {
        self.skipped_count = self.skipped_count + 1;
        self.errors.push(msg);
        proof { assert(self.errors@.drop_last() =~= old(self).errors@); }
    }

    /// Counts one failed file and records the message.
    pub fn record_error(&mut self, msg: String)
        requires
            old(self).error_count < usize::MAX,
        ensures
            final(self).error_count == old(self).error_count + 1,
            final(self).dehydrated_count == old(self).dehydrated_count,
            final(self).bytes_freed == old(self).bytes_freed,
            final(self).skipped_count == old(self).skipped_count,
            appended(old(self).errors@, final(self).errors@, msg@),
    {
        self.error_count = self.error_count + 1;
        self.errors.push(msg);
        proof { assert(self.errors@.drop_last() =~= old(self).errors@); }
    }
}

// ---------------------------------------------------------------------------
// Sweeps
// ---------------------------------------------------------------------------

/// How a sweep begins, given the cache usage.
#[derive(Debug, Clone, Copy, PartialEq, Eq)]
pub enum SweepStart {
    /// Usage is below the threshold: nothing to do.
    BelowThreshold,
    /// Usage reached the threshold: free this many bytes.
    Reclaim(u64),
}

/// Usage a sweep aims for: 80% of the threshold.
pub open spec fn sweep_target(threshold: u64) -> int {
    threshold * 80 / 100
}

/// Bytes a sweep has to free: usage above the target, or zero.
pub open spec fn bytes_to_free(current_usage: u64, threshold: u64) -> int {
    if current_usage >= sweep_target(threshold) {
        current_usage - sweep_target(threshold)
    } else {
        0
    }
}

/// Decides whether a sweep runs and how much it must free.
pub fn plan_sweep(current_usage: u64, threshold: u64) -> (r: SweepStart)
    requires
        threshold * 80 <= u64::MAX,
    ensures
        current_usage < threshold ==> r == SweepStart::BelowThreshold,
        current_usage >= threshold ==> r == SweepStart::Reclaim(bytes_to_free(current_usage, threshold) as u64),
{
    if current_usage < threshold {
        return SweepStart::BelowThreshold;
    }
    let target = threshold * 80 / 100;
    SweepStart::Reclaim(current_usage.saturating_sub(target))
}

/// Whether a file whose last handle was just closed should be dehydrated at once:
/// only while the cache is strictly above the threshold.
pub fn should_dehydrate_on_close(current_usage: u64, threshold: u64) -> (r: bool)
    ensures
        r == (current_usage > threshold),
{
    current_usage > threshold
}

/// What a sweep knows of one candidate item.
#[derive(Debug, Clone)]
pub struct SweepCandidate {
    /// Identifier of the item.
    pub item_id: UniqueId,
    /// The item's state in the database.
    pub state: ItemState,
    /// Inode assigned to the item, if any.
    pub inode: Option<u64>,
    /// OneDrive id of the item, if any.
    pub remote_id: Option<String>,
    /// Local path of the item, for messages.
    pub local_path: String,
}

/// What a sweep does with a candidate.
#[derive(Debug, Clone, Copy, PartialEq, Eq)]
pub enum CandidateDecision {
    /// Not `Hydrated` in the database: skipped.
    SkipNotHydrated,
    /// Still open (its inode has open handles): skipped.
    SkipOpenHandles,
    /// No remote id, so nothing to dehydrate: skipped.
    SkipNoRemoteId,
    /// Remove its cached content and set it `Online`.
    Dehydrate,
}

/// Whether the inode table shows open handles on `inode`.
pub open spec fn has_open_handles(table: &InodeTable, inode: Option<u64>) -> bool {
    match inode {
        Some(i) => table@.dom().contains(i) && table@[i].open_handles > 0,
        None => false,
    }
}

/// The decision a sweep makes for a candidate, in the order of its checks.
pub open spec fn spec_classify(table: &InodeTable, c: SweepCandidate) -> CandidateDecision {
    if !(c.state is Hydrated) {
        CandidateDecision::SkipNotHydrated
    } else if has_open_handles(table, c.inode) {
        CandidateDecision::SkipOpenHandles
    } else if c.remote_id is None {
        CandidateDecision::SkipNoRemoteId
    } else {
        CandidateDecision::Dehydrate
    }
}

/// Classifies a sweep candidate.
pub fn classify_candidate(table: &InodeTable, c: &SweepCandidate) -> (r: CandidateDecision)
    ensures
        r == spec_classify(table, *c),
{
    if !c.state.can_dehydrate() {
        return CandidateDecision::SkipNotHydrated;
    }
    match c.inode {
        Some(i) => match table.get(i) {
            Some(entry) => {
                if entry.open_handles > 0 {
                    return CandidateDecision::SkipOpenHandles;
                }
            },
            None => {},
        },
        None => {},
    }
    match &c.remote_id {
        Some(_) => CandidateDecision::Dehydrate,
        None => CandidateDecision::SkipNoRemoteId,
    }
}

/// Result of dehydrating one candidate, as performed by the caller.
#[derive(Debug, Clone, PartialEq, Eq)]
pub enum DehydrateOutcome {
    /// Content removed and state set to `Online`.
    Done,
    /// Removing the cached content failed with this message.
    CacheRemovalFailed(String),
    /// The content was removed but the state update failed with this message.
    StateUpdateFailed(String),
}

/// Message for a failed cache removal.
pub open spec fn cache_removal_failed_msg(path: Seq<char>, err: Seq<char>) -> Seq<char> {
    "Cache removal failed for "@ + path + ": "@ + err
}

/// Message for a failed state update.
pub open spec fn state_update_failed_msg(path: Seq<char>, err: Seq<char>) -> Seq<char> {
    "State update failed for "@ + path + ": "@ + err
}

/// Progress of a sweep: its report and the bytes it must free.
/// The bytes freed so far are the report's `bytes_freed`.
#[derive(Debug, Clone)]
pub struct SweepProgress {
    /// Report so far.
    pub report: DehydrationReport,
    /// Bytes the sweep must free before it stops.
    pub bytes_to_free: u64,
}

impl SweepProgress {
    /// A sweep that has processed nothing yet.
    pub fn start(bytes_to_free: u64) -> (r: SweepProgress)
        ensures
            r.bytes_to_free == bytes_to_free,
            r.report.dehydrated_count == 0,
            r.report.bytes_freed == 0,
            r.report.skipped_count == 0,
            r.report.error_count == 0,
            r.report.errors@.len() == 0,
    {
        SweepProgress { report: DehydrationReport::default(), bytes_to_free }
    }

    /// Whether enough space has been freed.
    pub open spec fn spec_target_reached(&self) -> bool {
        self.report.bytes_freed >= self.bytes_to_free
    }

    /// Whether the sweep may stop because enough space has been freed.
    pub fn target_reached(&self) -> (r: bool)
        ensures
            r == self.spec_target_reached(),
    {
        self.report.bytes_freed >= self.bytes_to_free
    }

    /// Records a candidate that was skipped without being touched.
    pub fn record_skip(&mut self, decision: CandidateDecision)
        requires
            decision != CandidateDecision::Dehydrate,
            old(self).report.skipped_count < usize::MAX,
        ensures
            final(self).report.skipped_count == old(self).report.skipped_count + 1,
            final(self).report.dehydrated_count == old(self).report.dehydrated_count,
            final(self).report.bytes_freed == old(self).report.bytes_freed,
            final(self).report.error_count == old(self).report.error_count,
            final(self).report.errors@ == old(self).report.errors@,
            final(self).bytes_to_free == old(self).bytes_to_free,
    {
        self.report.record_skipped();
    }

    /// Records what happened when a candidate was dehydrated; `file_size`
    /// is the size its cached content had before removal.
    pub fn record_outcome(&mut self, c: &SweepCandidate, outcome: DehydrateOutcome, file_size: u64)
        requires
            old(self).report.dehydrated_count < usize::MAX,
            old(self).report.error_count < usize::MAX,
            old(self).report.bytes_freed + file_size <= u64::MAX,
        ensures
            final(self).bytes_to_free == old(self).bytes_to_free,
            final(self).report.skipped_count == old(self).report.skipped_count,
            outcome == DehydrateOutcome::Done ==> {
                &&& final(self).report.dehydrated_count == old(self).report.dehydrated_count + 1
                &&& final(self).report.bytes_freed == old(self).report.bytes_freed + file_size
                &&& final(self).report.error_count == old(self).report.error_count
                &&& final(self).report.errors@ == old(self).report.errors@
            },
            outcome matches DehydrateOutcome::CacheRemovalFailed(e) ==> {
                &&& final(self).report.error_count == old(self).report.error_count + 1
                &&& final(self).report.dehydrated_count == old(self).report.dehydrated_count
                &&& final(self).report.bytes_freed == old(self).report.bytes_freed
                &&& appended(old(self).report.errors@, final(self).report.errors@,
                    cache_removal_failed_msg(c.local_path@, e@))
            },
            outcome matches DehydrateOutcome::StateUpdateFailed(e) ==> {
                &&& final(self).report.error_count == old(self).report.error_count + 1
                &&& final(self).report.dehydrated_count == old(self).report.dehydrated_count
                &&& final(self).report.bytes_freed == old(self).report.bytes_freed
                &&& appended(old(self).report.errors@, final(self).report.errors@,
                    state_update_failed_msg(c.local_path@, e@))
            },
    {
        match outcome {
            DehydrateOutcome::Done => {
                self.report.record_dehydrated(file_size);
            },
            DehydrateOutcome::CacheRemovalFailed(e) => {
                let mut msg = String::new();
                push_str(&mut msg, "Cache removal failed for ");
                push_str(&mut msg, c.local_path.as_str());
                push_str(&mut msg, ": ");
                push_str(&mut msg, e.as_str());
                proof { assert(msg@ =~= cache_removal_failed_msg(c.local_path@, e@)); }
                self.report.record_error(msg);
            },
            DehydrateOutcome::StateUpdateFailed(e) => {
                let mut msg = String::new();
                push_str(&mut msg, "State update failed for ");
                push_str(&mut msg, c.local_path.as_str());
                push_str(&mut msg, ": ");
                push_str(&mut msg, e.as_str());
                proof { assert(msg@ =~= state_update_failed_msg(c.local_path@, e@)); }
                self.report.record_error(msg);
            },
        }
    }
}

// ---------------------------------------------------------------------------
// Manual dehydration
// ---------------------------------------------------------------------------

/// Message when the inode is unknown.
pub open spec fn inode_not_found_msg(ino: u64) -> Seq<char> {
    "Inode "@ + decimal(ino as nat) + " not found"@
}

/// Message when the file is open.
pub open spec fn open_handles_msg(n: u64) -> Seq<char> {
    "Cannot dehydrate file with "@ + decimal(n as nat) + " open handles"@
}

/// Message when the file is not `Hydrated`.
pub open spec fn wrong_state_msg(s: ItemState) -> Seq<char> {
    "Cannot dehydrate file in state "@ + state_debug(s) + ". Only Hydrated files can be dehydrated."@
}

/// Message when the file has no remote id.
pub open spec fn no_remote_id_msg() -> Seq<char> {
    "File has no remote ID"@
}

/// The error (by kind and message) a manual dehydration of `ino` stops with,
/// or `None` when the file is eligible.
pub open spec fn manual_refusal(table: &InodeTable, ino: u64) -> Option<(int, Seq<char>)> {
    if !table@.dom().contains(ino) {
        Some((0, inode_not_found_msg(ino)))
    } else if table@[ino].open_handles > 0 {
        Some((1, open_handles_msg(table@[ino].open_handles)))
    } else if !(table@[ino].state is Hydrated) {
        Some((2, wrong_state_msg(table@[ino].state)))
    } else if table@[ino].remote_id is None {
        Some((2, no_remote_id_msg()))
    } else {
        None
    }
}

/// Whether `e` is the error of kind `kind` (0 not found, 1 permission denied,
/// 2 invalid argument) with message `msg`.
pub open spec fn is_error(e: FuseError, kind: int, msg: Seq<char>) -> bool {
    match e {
        FuseError::NotFound(m) => kind == 0 && m@ == msg,
        FuseError::PermissionDenied(m) => kind == 1 && m@ == msg,
        FuseError::InvalidArgument(m) => kind == 2 && m@ == msg,
        _ => false,
    }
}

/// Checks that the file under `ino` may be dehydrated by hand and returns its
/// remote id and item id.
pub fn check_manual_dehydration(table: &InodeTable, ino: u64) -> (r: Result<(String, UniqueId), FuseError>)
    ensures
        match manual_refusal(table, ino) {
            Some((kind, msg)) => r matches Err(e) && is_error(e, kind, msg),
            None => r matches Ok((rid, id)) && table@[ino].remote_id == Some(rid)
                && id == table@[ino].item_id,
        },
{
    let entry = match table.get(ino) {
        Some(e) => e,
        None => {
            let mut msg = String::new();
            push_str(&mut msg, "Inode ");
            push_decimal(&mut msg, ino);
            push_str(&mut msg, " not found");
            proof { assert(msg@ =~= inode_not_found_msg(ino)); }
            return Err(FuseError::NotFound(msg));
        },
    };
    if entry.open_handles > 0 {
        let mut msg = String::new();
        push_str(&mut msg, "Cannot dehydrate file with ");
        push_decimal(&mut msg, entry.open_handles);
        push_str(&mut msg, " open handles");
        proof { assert(msg@ =~= open_handles_msg(entry.open_handles)); }
        return Err(FuseError::PermissionDenied(msg));
    }
    if !entry.state.can_dehydrate() {
        let mut msg = String::new();
        push_str(&mut msg, "Cannot dehydrate file in state ");
        entry.state.push_debug(&mut msg);
        push_str(&mut msg, ". Only Hydrated files can be dehydrated.");
        proof { assert(msg@ =~= wrong_state_msg(entry.state)); }
        return Err(FuseError::InvalidArgument(msg));
    }
    match entry.remote_id {
        Some(rid) => Ok((rid, entry.item_id)),
        None => {
            let msg = crate::text::to_string("File has no remote ID");
            Err(FuseError::InvalidArgument(msg))
        },
    }
}

/// Message appended for a file a manual dehydration refused or failed on.
pub open spec fn manual_failure_msg(ino: u64, e: FuseError) -> Seq<char> {
    match e {
        FuseError::NotFound(m) => "Not found: "@ + m@,
        FuseError::PermissionDenied(m) => "Permission denied: "@ + m@,
        FuseError::InvalidArgument(m) => "Invalid state: "@ + m@,
        _ => "Error dehydrating "@ + decimal(ino as nat) + ": "@ + error_text(e),
    }
}

/// Whether an error counts as a skip (the file was not eligible) rather than a failure.
pub open spec fn is_refusal(e: FuseError) -> bool {
    e is NotFound || e is PermissionDenied || e is InvalidArgument
}

impl DehydrationReport {
    /// Records the result of dehydrating `ino` by hand.
    pub fn record_manual(&mut self, ino: u64, result: Result<u64, FuseError>)
        requires
            old(self).dehydrated_count < usize::MAX,
            old(self).skipped_count < usize::MAX,
            old(self).error_count < usize::MAX,
            result matches Ok(b) ==> old(self).bytes_freed + b <= u64::MAX,
        ensures
            result matches Ok(b) ==> {
                &&& final(self).dehydrated_count == old(self).dehydrated_count + 1
                &&& final(self).bytes_freed == old(self).bytes_freed + b
                &&& final(self).skipped_count == old(self).skipped_count
                &&& final(self).error_count == old(self).error_count
                &&& final(self).errors@ == old(self).errors@
            },
            result matches Err(e) ==> {
                &&& final(self).dehydrated_count == old(self).dehydrated_count
                &&& final(self).bytes_freed == old(self).bytes_freed
                &&& is_refusal(e) ==> final(self).skipped_count == old(self).skipped_count + 1
                    && final(self).error_count == old(self).error_count
                &&& !is_refusal(e) ==> final(self).error_count == old(self).error_count + 1
                    && final(self).skipped_count == old(self).skipped_count
                &&& appended(old(self).errors@, final(self).errors@, manual_failure_msg(ino, e))
            },
    {
        match result {
            Ok(b) => self.record_dehydrated(b),
            Err(e) => {
                let mut msg = String::new();
                match &e {
                    FuseError::NotFound(m) => {
                        push_str(&mut msg, "Not found: ");
                        push_str(&mut msg, m.as_str());
                    },
                    FuseError::PermissionDenied(m) => {
                        push_str(&mut msg, "Permission denied: ");
                        push_str(&mut msg, m.as_str());
                    },
                    FuseError::InvalidArgument(m) => {
                        push_str(&mut msg, "Invalid state: ");
                        push_str(&mut msg, m.as_str());
                    },
                    _ => {
                        push_str(&mut msg, "Error dehydrating ");
                        push_decimal(&mut msg, ino);
                        push_str(&mut msg, ": ");
                        let d = e.describe();
                        push_str(&mut msg, d.as_str());
                    },
                }
                proof { assert(msg@ =~= manual_failure_msg(ino, e)); }
                match &e {
                    FuseError::NotFound(_) | FuseError::PermissionDenied(_) | FuseError::InvalidArgument(_) => {
                        self.record_skipped_with(msg);
                    },
                    _ => {
                        self.record_error(msg);
                    },
                }
            },
        }
    }
}

} // verus!
