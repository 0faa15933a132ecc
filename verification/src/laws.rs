//! Properties of the library that span several operations.
//!
//! Each proof function states one property over the models that the
//! operations' contracts use, taking as hypotheses exactly what those
//! contracts guarantee about the states involved.

use std::cmp::Ordering;
use std::time::SystemTime;

use vstd::prelude::*;

use crate::dehydration::{spec_classify, CandidateDecision, DehydrationPolicy, DehydrationReport, SweepCandidate};
use crate::fs::{creation_refusal, has_named_child, renamed, with_handle_bumped, with_lookup_bumped};
use crate::fs_init::{entry_of_record, is_last_ino, loaded, ItemRecord};
use crate::graph::{delta_of, DeltaItem, GraphDriveItem, ParentReference};
use crate::hydration::{percent_up, pinnable, unpinnable, spec_progress, spec_required_progress, splits_children, DirectoryPlan};
use crate::inode::{is_child, is_named_child, InodeTable};
use crate::inode_entry::{InodeEntry, InodeNumber, ROOT_INO};
use vstd::std_specs::cmp::PartialOrdSpec;
use vstd::std_specs::convert::FromSpec;
use crate::rate_limit::{after_answers, after_success, after_throttle, recovered, throttled, AdaptiveCapacity};
use crate::service::{opt_view, paused, queued_once, resumed, DaemonSyncState};
use crate::state::{FileKind, ItemState};

verus! {

/// The inode table is a bidirectional mapping: after inserting an entry, it
/// is found by its inode number and its item id leads back to that inode.
pub proof fn law_insert_then_get(entries: Map<u64, InodeEntry>, index: Map<u128, u64>,
    entries2: Map<u64, InodeEntry>, index2: Map<u128, u64>, e: InodeEntry)
    requires
        entries2 == entries.insert(e.ino.0, e),
        index2 == index.insert(e.item_id.0, e.ino.0),
    ensures
        entries2.dom().contains(e.ino.0) && entries2[e.ino.0] == e,
        index2.dom().contains(e.item_id.0) && index2[e.item_id.0] == e.ino.0,
        forall|k: u64| k != e.ino.0 ==> (entries2.dom().contains(k) == entries.dom().contains(k)),
{
}

/// Removing an inode forgets it in both directions and leaves the others alone.
pub proof fn law_remove_forgets(entries: Map<u64, InodeEntry>, index: Map<u128, u64>,
    entries2: Map<u64, InodeEntry>, index2: Map<u128, u64>, ino: u64)
    requires
        entries.dom().contains(ino),
        entries2 == entries.remove(ino),
        index2 == index.remove(entries[ino].item_id.0),
    ensures
        !entries2.dom().contains(ino),
        !index2.dom().contains(entries[ino].item_id.0),
        forall|k: u64| k != ino && entries.dom().contains(k) ==> entries2.dom().contains(k) && entries2[k] == entries[k],
{
}

/// Inode numbers compare as their raw numbers: equal exactly when the
/// numbers are, and ordered as the numbers.
pub proof fn law_inode_number_order(a: u64, b: u64)
    ensures
        (InodeNumber(a) == InodeNumber(b)) == (a == b),
        (InodeNumber(a).partial_cmp_spec(&InodeNumber(b)) == Some(Ordering::Less)) == (a < b),
        (InodeNumber(a).partial_cmp_spec(&InodeNumber(b)) == Some(Ordering::Equal)) == (a == b),
        (InodeNumber(a).partial_cmp_spec(&InodeNumber(b)) == Some(Ordering::Greater)) == (a > b),
{
}

/// Converting a number to an inode number and back gives the number again,
/// and the other way round; the root is inode 1.
pub proof fn law_inode_number_round_trip(v: u64, n: InodeNumber)
    ensures
        <u64 as FromSpec<InodeNumber>>::from_spec(<InodeNumber as FromSpec<u64>>::from_spec(v)) == v,
        <InodeNumber as FromSpec<u64>>::from_spec(<u64 as FromSpec<InodeNumber>>::from_spec(n)) == n,
        InodeNumber(ROOT_INO) == InodeNumber(1),
{
}

/// A kernel lookup followed by a `forget` of one reference restores the entry.
pub proof fn law_lookup_then_forget(e: InodeEntry)
    requires
        e.lookup_count < u64::MAX,
    ensures
        (InodeEntry { lookup_count: (with_lookup_bumped(e).lookup_count - 1) as u64, ..with_lookup_bumped(e) }) == e,
{
}

/// An `open` followed by a `release` of the same file restores its entry.
pub proof fn law_open_then_release(e: InodeEntry)
    requires
        e.open_handles < u64::MAX,
    ensures
        (InodeEntry { open_handles: (with_handle_bumped(e).open_handles - 1) as u64, ..with_handle_bumped(e) }) == e,
{
}

/// After a successful creation check, the entry a `mkdir` or `create` adds
/// is the only one its parent holds under its name.
pub proof fn law_create_then_lookup(m: Map<u64, InodeEntry>, m2: Map<u64, InodeEntry>, parent: u64,
    name: &str, e: InodeEntry)
    requires
        creation_refusal(m, parent, name) is None,
        e.parent_ino.0 == parent,
        e.name@ == name@,
        m2 == m.insert(e.ino.0, e),
    ensures
        is_named_child(m2, e.ino.0, parent, name@),
        forall|k: u64| is_named_child(m2, k, parent, name@) ==> k == e.ino.0,
{
    assert forall|k: u64| is_named_child(m2, k, parent, name@) implies k == e.ino.0 by {
        if k != e.ino.0 {
            assert(is_named_child(m, k, parent, name@));
            assert(has_named_child(m, parent, name@));
        }
    }
}

/// After a successful `rename`, the moved entry is found under its new name
/// and no longer under its old one (when the names differ).
pub proof fn law_rename_moves(m: Map<u64, InodeEntry>, m1: Map<u64, InodeEntry>, m2: Map<u64, InodeEntry>,
    s: u64, parent: u64, name: Seq<char>, newparent: u64, newname: Seq<char>, now: SystemTime)
    requires
        is_named_child(m, s, parent, name),
        m2.dom().contains(s),
        m2[s] == renamed(m[s], newparent, newname, now, m2[s].name),
        m2[s].name@ == newname,
        m2 == m1.insert(s, m2[s]),
        parent != newparent || name != newname,
    ensures
        is_named_child(m2, s, newparent, newname),
        !is_named_child(m2, s, parent, name),
        m2[s].item_id == m[s].item_id,
        m2[s].remote_id == m[s].remote_id,
        m2[s].size == m[s].size,
        m2[s].kind == m[s].kind,
{
}

/// A rename is a local change: locally available content becomes `Modified`,
/// other states are kept.
pub proof fn law_rename_marks_modified(e: InodeEntry, parent: u64, name: Seq<char>, now: SystemTime, s: String)
    ensures
        e.state.spec_is_local() ==> renamed(e, parent, name, now, s).state == ItemState::Modified,
        !e.state.spec_is_local() ==> renamed(e, parent, name, now, s).state == e.state,
{
}

/// After crash recovery no item is left `Hydrating`.
pub proof fn law_recovery_leaves_no_hydrating(before: Seq<ItemRecord>, after: Seq<ItemRecord>)
    requires
        after.len() == before.len(),
        forall|i: int| 0 <= i < before.len() ==> {
            &&& (before[i].state is Hydrating) ==>
                #[trigger] after[i] == (ItemRecord { state: ItemState::Online, ..before[i] })
            &&& !(before[i].state is Hydrating) ==> after[i] == before[i]
        },
    ensures
        forall|i: int| 0 <= i < after.len() ==> !(#[trigger] after[i].state is Hydrating),
{
    assert forall|i: int| 0 <= i < after.len() implies !(#[trigger] after[i].state is Hydrating) by {
        if before[i].state is Hydrating {
            assert(after[i] == (ItemRecord { state: ItemState::Online, ..before[i] }));
        }
    }
}

/// Merging an empty report changes no counter.
pub proof fn law_merge_empty_report(r: DehydrationReport, other: DehydrationReport, merged: DehydrationReport)
    requires
        other.dehydrated_count == 0,
        other.bytes_freed == 0,
        other.skipped_count == 0,
        other.error_count == 0,
        other.errors@.len() == 0,
        merged.dehydrated_count == r.dehydrated_count + other.dehydrated_count,
        merged.bytes_freed == r.bytes_freed + other.bytes_freed,
        merged.skipped_count == r.skipped_count + other.skipped_count,
        merged.error_count == r.error_count + other.error_count,
        merged.errors@ == r.errors@ + other.errors@,
    ensures
        merged.dehydrated_count == r.dehydrated_count,
        merged.bytes_freed == r.bytes_freed,
        merged.skipped_count == r.skipped_count,
        merged.error_count == r.error_count,
        merged.errors@ == r.errors@,
{
    assert(merged.errors@ =~= r.errors@);
}

/// With a percentage of at most 100 the threshold never exceeds the cache size.
pub proof fn law_threshold_within_cache(p: DehydrationPolicy)
    requires
        p.threshold_percent <= 100,
    ensures
        0 <= p.spec_threshold_bytes() <= p.cache_max_bytes,
{
    assert(p.cache_max_bytes * p.threshold_percent <= p.cache_max_bytes * 100) by (nonlinear_arith)
        requires p.threshold_percent <= 100;
    assert(0 <= p.cache_max_bytes * p.threshold_percent) by (nonlinear_arith);
}

/// Progress is a percentage: at most 100, and 100 for an empty file.
pub proof fn law_progress_is_percentage(total: u64, downloaded: u64)
    ensures
        0 <= spec_progress(total, downloaded) <= 100,
        total == 0 ==> spec_progress(total, downloaded) == 100,
        downloaded >= total ==> spec_progress(total, downloaded) == 100,
{
    if total > 0 {
        assert(downloaded * 100 / (total as int) >= 0) by (nonlinear_arith)
            requires total > 0;
        if downloaded >= total {
            assert(downloaded * 100 / (total as int) >= 100) by (nonlinear_arith)
                requires downloaded >= total, total > 0;
        }
    }
}

/// Progress never goes backwards as bytes arrive.
pub proof fn law_progress_monotone(total: u64, d1: u64, d2: u64)
    requires
        d1 <= d2,
    ensures
        spec_progress(total, d1) <= spec_progress(total, d2),
{
    if total > 0 {
        assert(d1 * 100 / (total as int) <= d2 * 100 / (total as int)) by (nonlinear_arith)
            requires d1 <= d2, total > 0;
    }
}

/// A read waiting on a download goes on only once its range has arrived:
/// a progress that reaches the required one means that the bytes up to the
/// end of the range (or of the file, when the range runs past it) are downloaded.
pub proof fn law_range_ready_means_downloaded(offset: u64, size: u64, total: u64, downloaded: u64)
    requires
        spec_progress(total, downloaded) >= spec_required_progress(offset, size, total),
    ensures
        downloaded >= ({
            let end: int = if offset + size > u64::MAX { u64::MAX as int } else { offset + size };
            if end < total { end } else { total as int }
        }),
{
    let end: int = if offset + size > u64::MAX { u64::MAX as int } else { offset + size };
    if total > 0 && downloaded < total {
        let t = total as int;
        let d = downloaded as int;
        let f = d * 100 / t;
        assert(f < 100) by (nonlinear_arith)
            requires d < t, t > 0, f == d * 100 / t, d >= 0;
        assert(spec_progress(total, downloaded) == f);
        let c = percent_up(end, t);
        assert(c <= f);
        assert(end * 100 <= c * t) by (nonlinear_arith)
            requires t > 0, c == (if (end * 100) % t == 0 { end * 100 / t } else { end * 100 / t + 1 });
        assert(f * t <= d * 100) by (nonlinear_arith)
            requires t > 0, f == d * 100 / t, d >= 0;
        assert(c * t <= f * t) by (nonlinear_arith)
            requires c <= f, t > 0;
    }
}

/// Successes never raise the capacity in force above the configured one.
pub proof fn law_success_bounded(before: AdaptiveCapacity, after: AdaptiveCapacity)
    requires
        before.effective_capacity <= before.capacity,
        after.capacity == before.capacity,
        ((before.success_count + 1) % 100 == 0 && before.effective_capacity < before.capacity) ==>
            after.effective_capacity == recovered(before.effective_capacity, before.capacity),
        !((before.success_count + 1) % 100 == 0 && before.effective_capacity < before.capacity) ==>
            after.effective_capacity == before.effective_capacity,
    ensures
        after.effective_capacity <= after.capacity,
        after.effective_capacity >= before.effective_capacity,
{
}

/// A completed recovery interval strictly raises a reduced capacity.
pub proof fn law_recovery_raises(eff: u32, capacity: u32)
    requires
        eff < capacity,
    ensures
        eff < recovered(eff, capacity) <= capacity,
{
}

/// A throttle keeps at least one request allowed and never raises the capacity
/// in force (beyond the floor of one).
pub proof fn law_throttle_reduces(eff: u32)
    ensures
        throttled(eff) >= 1,
        eff >= 1 ==> throttled(eff) <= eff,
        eff >= 2 ==> throttled(eff) < eff,
{
}

/// Throttles and successes keep the capacity in force between 1 and the
/// configured capacity.
pub proof fn law_capacity_stays_in_range(a: AdaptiveCapacity)
    requires
        1 <= a.effective_capacity <= a.capacity,
    ensures
        1 <= throttled(a.effective_capacity) <= a.capacity,
        a.effective_capacity < a.capacity ==>
            1 <= recovered(a.effective_capacity, a.capacity) <= a.capacity,
{
}

/// Over any run of successes and throttles, a bucket that starts with its
/// capacity in force between 1 and the configured one keeps it there, and
/// its configured capacity never changes.
pub proof fn law_capacity_range_over_any_run(a: AdaptiveCapacity, answers: Seq<bool>)
    requires
        1 <= a.effective_capacity <= a.capacity,
    ensures
        after_answers(a, answers).capacity == a.capacity,
        1 <= after_answers(a, answers).effective_capacity <= a.capacity,
    decreases answers.len(),
{
    if answers.len() > 0 {
        let next = if answers[0] { after_success(a) } else { after_throttle(a) };
        law_capacity_stays_in_range(a);
        law_capacity_range_over_any_run(next, answers.drop_first());
    }
}

/// Queuing the same path twice leaves the queue as queuing it once.
pub proof fn law_queue_idempotent(q0: Seq<Seq<char>>, q1: Seq<Seq<char>>, q2: Seq<Seq<char>>, path: Seq<char>)
    requires
        queued_once(q0, q1, path),
        queued_once(q1, q2, path),
    ensures
        q2 == q1,
        q1.contains(path),
{
    if !q0.contains(path) {
        assert(q1[q1.len() - 1] == path);
    }
}

/// Resuming after a pause brings the daemon back to idle, whatever its
/// state before the pause; resuming twice is resuming once.
pub proof fn law_pause_then_resume(s: DaemonSyncState)
    ensures
        resumed(paused(s)) == DaemonSyncState::Idle,
        resumed(resumed(s)) == resumed(s),
{
}

/// Loading an item from the state database keeps its state: the entry made
/// for a record has exactly the record's state, whatever it is (a pinned file
/// stays pinned across mounts).
pub proof fn law_loaded_entry_keeps_state(e: InodeEntry, r: ItemRecord, ino: u64, parent: u64, now: SystemTime)
    requires
        entry_of_record(e, r, ino, parent, now),
    ensures
        e.state == r.state,
        r.state is Pinned ==> e.state is Pinned,
{
}

/// After the table is populated, every inode loaded from a record holds that
/// record's state.
pub proof fn law_populate_keeps_states(m: Map<u64, InodeEntry>, base: Map<u64, InodeEntry>,
    items: Seq<(ItemRecord, u64)>, now: SystemTime, i: int, k: u64)
    requires
        loaded(m, base, items, items.len() as int, now),
        is_last_ino(items, i, k, items.len() as int),
    ensures
        m.dom().contains(k),
        m[k].state == items[i].0.state,
{
    assert(is_last_ino(items, i, k, items.len() as int));
}

/// A delta item keeps the parent id of its drive item's parent reference,
/// whether or not that reference carries a path (deleted items carry none):
/// two drive items that differ only in the parent path give the same parent id.
pub proof fn law_delta_keeps_parent_id(g: GraphDriveItem, d: DeltaItem, g2: GraphDriveItem, d2: DeltaItem,
    pr: ParentReference, path2: Option<String>)
    requires
        delta_of(d, g),
        g.parent_reference == Some(pr),
        g2 == (GraphDriveItem { parent_reference: Some(ParentReference { path: path2, ..pr }), ..g }),
        delta_of(d2, g2),
    ensures
        opt_view(d.parent_id) == opt_view(pr.id),
        opt_view(d2.parent_id) == opt_view(d.parent_id),
{
}

/// A recursive pin acts on every file of the directory that has a remote id,
/// whatever its state (downloaded files are pinned too), and on no other file.
pub proof fn law_recursive_pin_takes_every_synced_file(m: Map<u64, InodeEntry>, dir: u64, plan: DirectoryPlan)
    requires
        splits_children(m, dir, plan, |e: InodeEntry| pinnable(e)),
    ensures
        forall|k: u64| is_child(m, k, dir) && m[k].kind != FileKind::Directory && m[k].remote_id is Some ==>
            exists|i: int| 0 <= i < plan.files@.len() && (#[trigger] plan.files@[i]).ino.0 == k,
        forall|i: int| 0 <= i < plan.files@.len() ==> (#[trigger] plan.files@[i]).remote_id is Some,
{
    assert forall|k: u64| is_child(m, k, dir) && m[k].kind != FileKind::Directory && m[k].remote_id is Some implies
        exists|i: int| 0 <= i < plan.files@.len() && (#[trigger] plan.files@[i]).ino.0 == k by {
        assert(pinnable(m[k]));
    }
    assert forall|i: int| 0 <= i < plan.files@.len() implies (#[trigger] plan.files@[i]).remote_id is Some by {
        assert(pinnable(plan.files@[i]));
    }
}

/// A sweep removes the content only of `Hydrated` files: a candidate in any
/// other state (pinned, modified, online, ...) is skipped as not hydrated.
pub proof fn law_sweep_only_dehydrates_hydrated(table: &InodeTable, c: SweepCandidate)
    ensures
        spec_classify(table, c) == CandidateDecision::Dehydrate ==> c.state is Hydrated,
        !(c.state is Hydrated) ==> spec_classify(table, c) == CandidateDecision::SkipNotHydrated,
{
}

/// Resuming acts only on a paused daemon: every other sync state, an error
/// included, is left as it is.
pub proof fn law_resume_only_acts_on_paused(s: DaemonSyncState)
    ensures
        !(s is Paused) ==> resumed(s) == s,
        s is Error ==> resumed(s) is Error,
        resumed(s) != s ==> s is Paused,
{
}

/// The entry loaded for a record mirrors it: same item and remote ids, a
/// directory exactly when the record is one, the record's size for a file,
/// and no kernel reference or open handle yet.
pub proof fn law_loaded_entry_mirrors_record(e: InodeEntry, r: ItemRecord, ino: u64, parent: u64, now: SystemTime)
    requires
        entry_of_record(e, r, ino, parent, now),
    ensures
        e.ino.0 == ino && e.parent_ino.0 == parent,
        e.item_id == r.id,
        e.remote_id == r.remote_id,
        (e.kind == FileKind::Directory) == r.is_directory,
        !r.is_directory ==> e.size == r.size_bytes,
        e.lookup_count == 0 && e.open_handles == 0,
{
}

/// A sweep dehydrates a candidate exactly when it is `Hydrated`, has a remote
/// id (so its content can be fetched again) and no open handle.
pub proof fn law_sweep_dehydrates_exactly(table: &InodeTable, c: SweepCandidate)
    ensures
        (spec_classify(table, c) == CandidateDecision::Dehydrate) == (c.state is Hydrated && c.remote_id is Some
            && !(c.inode matches Some(i) && table@.dom().contains(i) && table@[i].open_handles > 0)),
{
}

/// A recursive unpin acts on exactly the pinned files of the directory.
pub proof fn law_recursive_unpin_takes_pinned_files(m: Map<u64, InodeEntry>, dir: u64, plan: DirectoryPlan)
    requires
        splits_children(m, dir, plan, |e: InodeEntry| unpinnable(e)),
    ensures
        forall|k: u64| is_child(m, k, dir) && m[k].kind != FileKind::Directory && m[k].state is Pinned ==>
            exists|i: int| 0 <= i < plan.files@.len() && (#[trigger] plan.files@[i]).ino.0 == k,
        forall|i: int| 0 <= i < plan.files@.len() ==> (#[trigger] plan.files@[i]).state is Pinned,
{
    assert forall|k: u64| is_child(m, k, dir) && m[k].kind != FileKind::Directory && m[k].state is Pinned implies
        exists|i: int| 0 <= i < plan.files@.len() && (#[trigger] plan.files@[i]).ino.0 == k by {
        assert(unpinnable(m[k]));
    }
    assert forall|i: int| 0 <= i < plan.files@.len() implies (#[trigger] plan.files@[i]).state is Pinned by {
        assert(unpinnable(plan.files@[i]));
    }
}

/// A delta item carries its drive item's id, name, size, times and deleted
/// and folder flags.
pub proof fn law_delta_mirrors_drive_item(g: GraphDriveItem, d: DeltaItem)
    requires
        delta_of(d, g),
    ensures
        d.id == g.id && d.name == g.name && d.size == g.size && d.modified == g.modified,
        d.is_deleted == g.is_deleted && d.is_directory == g.is_folder,
        g.parent_reference is None ==> d.parent_id is None && d.path is None,
{
}

/// Pausing always leaves the daemon paused.
pub proof fn law_pause_always_pauses(s: DaemonSyncState)
    ensures
        paused(s) == DaemonSyncState::Paused,
{
}

} // verus!
