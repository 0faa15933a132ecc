//! On-demand hydration: downloading the content of cloud-only files.
//!
//! A [`HydrationRequest`] tracks one download and publishes its progress
//! (a percentage) on a `tokio::sync::watch` channel. The download itself,
//! its concurrency limit and cancellation run with the caller; this module
//! holds the rules: progress arithmetic, when a read may go on, how a file is
//! downloaded (whole or in chunks), how often progress is stored, and what
//! pinning and unpinning do in each state.

use std::time::SystemTime;

use tokio::sync::watch;
use vstd::prelude::*;

use crate::error::FuseError;
use crate::inode::{is_child, InodeTable};
use crate::inode_entry::InodeEntry;
use crate::state::{state_debug, FileKind, ItemState, UniqueId};
use crate::text::push_str;

verus! {

/// Priority of a hydration request; a higher priority is served first.
#[derive(Debug, Clone, Copy, PartialEq, Eq, PartialOrd, Ord, Hash)]
pub enum HydrationPriority {
    /// Background prefetch.
    Prefetch,
    /// The user pinned the file.
    PinRequest,
    /// The user opened the file.
    UserOpen,
}

impl HydrationPriority {
    /// The rank of a priority (0 for `Prefetch` up to 2 for `UserOpen`).
    pub open spec fn rank(self) -> int {
        match self {
            HydrationPriority::Prefetch => 0,
            HydrationPriority::PinRequest => 1,
            HydrationPriority::UserOpen => 2,
        }
    }

    /// The rank of this priority.
    pub fn level(&self) -> (r: u8)
        ensures
            r == self.rank(),
    {
        match self {
            HydrationPriority::Prefetch => 0,
            HydrationPriority::PinRequest => 1,
            HydrationPriority::UserOpen => 2,
        }
    }

    /// Whether this priority is served before `other`.
    pub fn is_higher_than(&self, other: &HydrationPriority) -> (r: bool)
        ensures
            r == (self.rank() > other.rank()),
    {
        self.level() > other.level()
    }
}

/// `tokio::sync::watch::Sender`, carried as an opaque value.
#[verifier::external_type_specification]
#[verifier::external_body]
#[verifier::reject_recursive_types(T)]
pub struct ExWatchSender<T>(tokio::sync::watch::Sender<T>);

/// `tokio::sync::watch::Receiver`, carried as an opaque value.
#[verifier::external_type_specification]
#[verifier::external_body]
#[verifier::reject_recursive_types(T)]
pub struct ExWatchReceiver<T>(tokio::sync::watch::Receiver<T>);

/// `SystemTime::now`: the current time (nothing is promised of its value).
#[verifier::external_body]
fn system_now() -> SystemTime {
    SystemTime::now()
}

/// `watch::channel(0)`: a progress channel whose first value is 0.
#[verifier::external_body]
fn progress_channel() -> (watch::Sender<u8>, watch::Receiver<u8>) {
    watch::channel(0u8)
}

/// `watch::Sender::send`: publishes a progress value and hands back the
/// value it sent (a send with no receiver left fails, which is of no
/// concern here).
#[verifier::external_body]
fn publish(tx: &watch::Sender<u8>, value: u8) -> (sent: u8)
    ensures
        sent == value,
{
    let _ = tx.send(value);
    value
}

/// `watch::Sender::subscribe`: a new receiver of the progress values.
/// Nothing is stated of the receiver: that it is connected to `tx`'s
/// channel and sees its latest value is shared, changing state that the
/// opaque channel types do not expose.
#[verifier::external_body]
fn subscribe_to(tx: &watch::Sender<u8>) -> watch::Receiver<u8> {
    tx.subscribe()
}

/// Percentage of `total` bytes that `downloaded` bytes make, at most 100;
/// an empty file is complete.
pub open spec fn spec_progress(total: u64, downloaded: u64) -> int {
    if total == 0 {
        100
    } else if downloaded * 100 / (total as int) > 100 {
        100
    } else {
        downloaded * 100 / (total as int)
    }
}

/// Computes `spec_progress`.
pub fn progress_percent(total: u64, downloaded: u64) -> (r: u8)
    requires
        downloaded * 100 <= u64::MAX,
    ensures
        r == spec_progress(total, downloaded),
{
    if total == 0 {
        return 100;
    }
    let p = (downloaded * 100) / total;
    if p > 100 { 100 } else { p as u8 }
}

/// A hydration request: one file being downloaded, with its progress.
#[derive(Debug)]
pub struct HydrationRequest {
    /// Inode of the file.
    pub ino: u64,
    /// Identifier of the item.
    pub item_id: UniqueId,
    /// OneDrive id of the item.
    pub remote_id: String,
    /// Expected size in bytes.
    pub total_size: u64,
    /// Bytes downloaded so far.
    pub downloaded: u64,
    /// Where the content goes in the cache.
    pub cache_path: String,
    /// Priority of the request.
    pub priority: HydrationPriority,
    /// When the request was made.
    pub created_at: SystemTime,
    /// Publishes the progress percentage.
    pub progress_tx: watch::Sender<u8>,
    /// The last value sent on `progress_tx`.
    pub published: u8,
}

impl HydrationRequest {
    /// Bytes downloaded so far (as a spec value).
    pub open spec fn spec_downloaded(&self) -> u64 {
        self.downloaded
    }

    /// A request with nothing downloaded, and a receiver of its progress.
    pub fn new(ino: u64, item_id: UniqueId, remote_id: String, total_size: u64, cache_path: String,
        priority: HydrationPriority) -> (r: (HydrationRequest, watch::Receiver<u8>))
        ensures
            r.0.ino == ino,
            r.0.item_id == item_id,
            r.0.remote_id == remote_id,
            r.0.total_size == total_size,
            r.0.cache_path == cache_path,
            r.0.priority == priority,
            r.0.spec_downloaded() == 0,
            r.0.published == 0,
    {
        let (tx, rx) = progress_channel();
        let request = HydrationRequest {
            ino,
            item_id,
            remote_id,
            total_size,
            downloaded: 0,
            cache_path,
            priority,
            created_at: system_now(),
            progress_tx: tx,
            published: 0,
        };
        (request, rx)
    }

    /// Progress in percent.
    pub fn progress(&self) -> (r: u8)
        requires
            self.spec_downloaded() * 100 <= u64::MAX,
        ensures
            r == spec_progress(self.total_size, self.spec_downloaded()),
    {
        progress_percent(self.total_size, self.downloaded)
    }

    /// Bytes downloaded so far.
    pub fn downloaded(&self) -> (r: u64)
        ensures
            r == self.spec_downloaded(),
    {
        self.downloaded
    }

    /// Counts `bytes` more downloaded bytes and publishes the new progress.
    pub fn add_downloaded(&mut self, bytes: u64)
        requires
            (old(self).spec_downloaded() + bytes) * 100 <= u64::MAX,
        ensures
            final(self).spec_downloaded() == old(self).spec_downloaded() + bytes,
            final(self).ino == old(self).ino,
            final(self).item_id == old(self).item_id,
            final(self).remote_id == old(self).remote_id,
            final(self).total_size == old(self).total_size,
            final(self).cache_path == old(self).cache_path,
            final(self).priority == old(self).priority,
            final(self).published == spec_progress(final(self).total_size, final(self).spec_downloaded()),
    {
        self.downloaded = self.downloaded + bytes;
        let p = self.progress();
        let sent = publish(&self.progress_tx, p);
        self.published = sent;
    }

    /// Marks the download complete and publishes 100%.
    pub fn mark_complete(&mut self)
        ensures
            final(self).spec_downloaded() == old(self).total_size,
            final(self).ino == old(self).ino,
            final(self).item_id == old(self).item_id,
            final(self).remote_id == old(self).remote_id,
            final(self).total_size == old(self).total_size,
            final(self).cache_path == old(self).cache_path,
            final(self).priority == old(self).priority,
            final(self).published == 100,
    {
        self.downloaded = self.total_size;
        let sent = publish(&self.progress_tx, 100);
        self.published = sent;
    }

    /// A new receiver of this request's progress, connected to the channel
    /// `new` created (a connection the opaque channel types leave unstated).
    pub fn subscribe(&self) -> watch::Receiver<u8> {
        subscribe_to(&self.progress_tx)
    }
}

/// Files at least this large are downloaded in chunks (100 MiB).
pub const CHUNKED_DOWNLOAD_THRESHOLD: u64 = 104857600;

/// Size of one downloaded chunk (10 MiB).
pub const DOWNLOAD_CHUNK_SIZE: u64 = 10485760;

/// Whether a file of `total_size` bytes is downloaded in chunks.
pub fn use_chunked_download(total_size: u64) -> (r: bool)
    ensures
        r == (total_size >= CHUNKED_DOWNLOAD_THRESHOLD),
{
    total_size >= CHUNKED_DOWNLOAD_THRESHOLD
}

/// Length of the chunk starting at `offset`: what is left, at most one chunk.
pub fn chunk_length(total_size: u64, offset: u64) -> (r: u64)
    requires
        offset < total_size,
    ensures
        r == (if total_size - offset < DOWNLOAD_CHUNK_SIZE { total_size - offset } else { DOWNLOAD_CHUNK_SIZE as int }),
        0 < r <= DOWNLOAD_CHUNK_SIZE,
{
    let remaining = total_size - offset;
    if remaining < DOWNLOAD_CHUNK_SIZE { remaining } else { DOWNLOAD_CHUNK_SIZE }
}

/// Whether a chunked download stores its progress now: after five more
/// percent since the last stored value, or at completion.
pub fn should_store_progress(current: u8, last_stored: u8) -> (r: bool)
    ensures
        r == (current >= last_stored + 5 || current == 100),
{
    current as u16 >= last_stored as u16 + 5 || current == 100
}

/// Percentage of `total` that `bytes` make, rounded up.
pub open spec fn percent_up(bytes: int, total: int) -> int {
    if (bytes * 100) % total == 0 { bytes * 100 / total } else { bytes * 100 / total + 1 }
}

/// Progress a download must reach before bytes `offset .. offset + size` can
/// be read: the range end as a percentage of the file, rounded up, at most 100.
pub open spec fn spec_required_progress(offset: u64, size: u64, total: u64) -> int {
    let end: int = if offset + size > u64::MAX { u64::MAX as int } else { offset + size };
    if total == 0 {
        100
    } else if percent_up(end, total as int) > 100 {
        100
    } else {
        percent_up(end, total as int)
    }
}

/// Computes `spec_required_progress` (the range end saturates at `u64::MAX`).
pub fn required_progress(offset: u64, size: u64, total: u64) -> (r: u8)
    requires
        (if offset + size > u64::MAX { u64::MAX as int } else { offset + size }) * 100 <= u64::MAX,
    ensures
        r == spec_required_progress(offset, size, total),
{
    let end = offset.saturating_add(size);
    if total == 0 {
        return 100;
    }
    let p = (end * 100) / total;
    if p >= 100 {
        return 100;
    }
    if (end * 100) % total == 0 { p as u8 } else { (p + 1) as u8 }
}

/// Whether a read waiting on a download may go on at progress `progress`.
pub fn range_ready(progress: u8, required: u8) -> (r: bool)
    ensures
        r == (progress >= required),
{
    progress >= required
}

/// The state an item gets when its download finishes: `Hydrated`, or `Error`
/// with the text of the failure.
pub fn completion_state(result: &Result<(), FuseError>) -> (r: ItemState)
    ensures
        result is Ok ==> r == ItemState::Hydrated,
        result matches Err(e) ==> (r matches ItemState::Error(m) && m@ == crate::error::error_text(*e)),
{
    match result {
        Ok(()) => ItemState::Hydrated,
        Err(e) => ItemState::Error(e.describe()),
    }
}

/// What pinning a file in a given state takes.
#[derive(Debug, Clone, Copy, PartialEq, Eq)]
pub enum PinAction {
    /// Already pinned: nothing to do.
    AlreadyPinned,
    /// Download it (with `PinRequest` priority), wait, then mark it `Pinned`.
    HydrateThenPin,
    /// Wait for the running download, then mark it `Pinned`.
    WaitThenPin,
    /// Mark it `Pinned` now.
    MarkPinned,
}

/// Message when a file cannot be pinned in its state.
pub open spec fn cannot_pin_msg(s: ItemState) -> Seq<char> {
    "Cannot pin file in state "@ + state_debug(s)
}

/// What pinning a file in `state` takes; deleted, conflicted and failed files cannot be pinned.
pub fn pin_action(state: &ItemState) -> (r: Result<PinAction, FuseError>)
    ensures
        *state is Pinned ==> r == Ok::<PinAction, FuseError>(PinAction::AlreadyPinned),
        *state is Online ==> r == Ok::<PinAction, FuseError>(PinAction::HydrateThenPin),
        *state is Hydrating ==> r == Ok::<PinAction, FuseError>(PinAction::WaitThenPin),
        (*state is Hydrated || *state is Modified) ==> r == Ok::<PinAction, FuseError>(PinAction::MarkPinned),
        (*state is Deleted || *state is Conflicted || *state is Error) ==>
            (r matches Err(FuseError::InvalidArgument(m)) && m@ == cannot_pin_msg(*state)),
{
    match state {
        ItemState::Pinned => Ok(PinAction::AlreadyPinned),
        ItemState::Online => Ok(PinAction::HydrateThenPin),
        ItemState::Hydrating => Ok(PinAction::WaitThenPin),
        ItemState::Hydrated | ItemState::Modified => Ok(PinAction::MarkPinned),
        _ => {
            let mut msg = String::new();
            push_str(&mut msg, "Cannot pin file in state ");
            state.push_debug(&mut msg);
            proof { assert(msg@ =~= cannot_pin_msg(*state)); }
            Err(FuseError::InvalidArgument(msg))
        },
    }
}

/// Whether unpinning a file in `state` changes it (only `Pinned` files go
/// back to `Hydrated`; in every other state unpinning does nothing).
pub fn unpin_changes(state: &ItemState) -> (r: bool)
    ensures
        r == (*state is Pinned),
{
    match state {
        ItemState::Pinned => true,
        _ => false,
    }
}

/// One directory's share of a recursive pin or unpin: the subdirectories to
/// descend into and the files to act on.
#[derive(Debug)]
pub struct DirectoryPlan {
    /// Subdirectories, to be handled the same way.
    pub subdirs: Vec<u64>,
    /// Files to pin or unpin.
    pub files: Vec<InodeEntry>,
}

/// Whether `plan` splits the children of `dir` into its subdirectories (not
/// `dir` itself, which the root is a child of) and the files for which
/// `take` holds.
pub open spec fn splits_children(m: Map<u64, InodeEntry>, dir: u64, plan: DirectoryPlan,
    take: spec_fn(InodeEntry) -> bool) -> bool {
    &&& forall|i: int| 0 <= i < plan.subdirs@.len() ==> is_child(m, #[trigger] plan.subdirs@[i], dir)
        && m[plan.subdirs@[i]].kind == FileKind::Directory && plan.subdirs@[i] != dir
    &&& forall|k: u64| is_child(m, k, dir) && m[k].kind == FileKind::Directory && k != dir ==>
        exists|i: int| 0 <= i < plan.subdirs@.len() && #[trigger] plan.subdirs@[i] == k
    &&& forall|i: int| 0 <= i < plan.files@.len() ==> {
        &&& is_child(m, (#[trigger] plan.files@[i]).ino.0, dir)
        &&& plan.files@[i] == m[plan.files@[i].ino.0]
        &&& plan.files@[i].kind != FileKind::Directory
        &&& take(plan.files@[i])
    }
    &&& forall|k: u64| is_child(m, k, dir) && m[k].kind != FileKind::Directory && take(m[k]) ==>
        exists|i: int| 0 <= i < plan.files@.len() && (#[trigger] plan.files@[i]).ino.0 == k
}

/// Files a recursive pin acts on: those with a remote id (new local files are skipped).
pub open spec fn pinnable(e: InodeEntry) -> bool {
    e.remote_id is Some
}

/// Files a recursive unpin acts on: the pinned ones.
pub open spec fn unpinnable(e: InodeEntry) -> bool {
    e.state is Pinned
}

/// Splits the children of `dir` for a recursive pin (`for_pin`) or unpin.
pub fn plan_directory(table: &InodeTable, dir: u64, for_pin: bool) -> (r: DirectoryPlan)
    ensures
        for_pin ==> splits_children(table@, dir, r, |e: InodeEntry| pinnable(e)),
        !for_pin ==> splits_children(table@, dir, r, |e: InodeEntry| unpinnable(e)),
{
    let kids = table.children(dir);
    let mut subdirs: Vec<u64> = Vec::new();
    let mut files: Vec<InodeEntry> = Vec::new();
    let ghost take: spec_fn(InodeEntry) -> bool = if for_pin { |e: InodeEntry| pinnable(e) } else { |e: InodeEntry| unpinnable(e) };
    let mut i: usize = 0;
    while i < kids.len()
        invariant
            i <= kids@.len(),
            take == (if for_pin { |e: InodeEntry| pinnable(e) } else { |e: InodeEntry| unpinnable(e) }),
            forall|a: int| 0 <= a < kids@.len() ==> {
                &&& is_child(table@, #[trigger] kids@[a].ino.0, dir)
                &&& kids@[a] == table@[kids@[a].ino.0]
            },
            forall|k: u64| is_child(table@, k, dir) ==>
                exists|a: int| 0 <= a < kids@.len() && #[trigger] kids@[a].ino.0 == k,
            forall|a: int| 0 <= a < subdirs@.len() ==> is_child(table@, #[trigger] subdirs@[a], dir)
                && table@[subdirs@[a]].kind == FileKind::Directory && subdirs@[a] != dir,
            forall|b: int| 0 <= b < i && (#[trigger] kids@[b]).kind == FileKind::Directory && kids@[b].ino.0 != dir ==>
                exists|a: int| 0 <= a < subdirs@.len() && #[trigger] subdirs@[a] == kids@[b].ino.0,
            forall|a: int| 0 <= a < files@.len() ==> {
                &&& is_child(table@, (#[trigger] files@[a]).ino.0, dir)
                &&& files@[a] == table@[files@[a].ino.0]
                &&& files@[a].kind != FileKind::Directory
                &&& take(files@[a])
            },
            forall|b: int| 0 <= b < i && (#[trigger] kids@[b]).kind != FileKind::Directory && take(kids@[b]) ==>
                exists|a: int| 0 <= a < files@.len() && (#[trigger] files@[a]).ino.0 == kids@[b].ino.0,
        decreases kids@.len() - i,
    {
        let ghost old_subdirs = subdirs@;
        let ghost old_files = files@;
        let c = &kids[i];
        if c.kind.is_dir() {
            if c.ino.0 != dir {
                subdirs.push(c.ino.0);
            }
        } else {
            let wanted = if for_pin {
                match &c.remote_id {
                    Some(_) => true,
                    None => false,
                }
            } else {
                unpin_changes(&c.state)
            };
            assert(wanted == take(kids@[i as int]));
            if wanted {
                files.push(c.duplicate());
            }
        }
        proof {
            assert forall|b: int| 0 <= b < i + 1 && (#[trigger] kids@[b]).kind == FileKind::Directory && kids@[b].ino.0 != dir implies
                exists|a: int| 0 <= a < subdirs@.len() && #[trigger] subdirs@[a] == kids@[b].ino.0 by {
                if b < i {
                    let a = choose|a: int| 0 <= a < old_subdirs.len() && #[trigger] old_subdirs[a] == kids@[b].ino.0;
                    assert(subdirs@[a] == old_subdirs[a]);
                } else {
                    assert(subdirs@[subdirs@.len() - 1] == kids@[b].ino.0);
                }
            }
            assert forall|b: int| 0 <= b < i + 1 && (#[trigger] kids@[b]).kind != FileKind::Directory && take(kids@[b]) implies
                exists|a: int| 0 <= a < files@.len() && (#[trigger] files@[a]).ino.0 == kids@[b].ino.0 by {
                if b < i {
                    let a = choose|a: int| 0 <= a < old_files.len() && (#[trigger] old_files[a]).ino.0 == kids@[b].ino.0;
                    assert(files@[a] == old_files[a]);
                } else {
                    assert(files@[files@.len() - 1].ino.0 == kids@[b].ino.0);
                }
            }
        }
        i = i + 1;
    }
    proof {
        assert forall|k: u64| is_child(table@, k, dir) && table@[k].kind == FileKind::Directory && k != dir implies
            exists|a: int| 0 <= a < subdirs@.len() && #[trigger] subdirs@[a] == k by {
            let b = choose|b: int| 0 <= b < kids@.len() && #[trigger] kids@[b].ino.0 == k;
            assert(kids@[b] == table@[k]);
            assert((kids@[b]).kind == FileKind::Directory);
            assert(0 <= b < i);
        }
        assert forall|k: u64| is_child(table@, k, dir) && table@[k].kind != FileKind::Directory && take(table@[k]) implies
            exists|a: int| 0 <= a < files@.len() && (#[trigger] files@[a]).ino.0 == k by {
            let b = choose|b: int| 0 <= b < kids@.len() && #[trigger] kids@[b].ino.0 == k;
            assert(kids@[b] == table@[k]);
            assert((kids@[b]).kind != FileKind::Directory && take(kids@[b]));
            assert(0 <= b < i);
        }
    }
    DirectoryPlan { subdirs, files }
}

} // verus!
