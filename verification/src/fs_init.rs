//! Paths of entries and the loading of the inode table at mount time.

use std::time::SystemTime;

use vstd::hash_map::StringHashMap;
use vstd::prelude::*;

use crate::fs::LnxDriveFs;
use crate::inode_entry::{InodeEntry, InodeNumber, ROOT_INO};
use crate::state::{FileKind, ItemState, UniqueId};
use crate::text::{push_char, push_str};

verus! {

// ---------------------------------------------------------------------------
// Paths
// ---------------------------------------------------------------------------

/// Names met going from `cur` up to the root, root side first, leaving out
/// empty names; the walk also ends at an unknown inode. `None` when it takes
/// more than `fuel` steps.
pub open spec fn ancestor_names(m: Map<u64, InodeEntry>, cur: u64, fuel: nat) -> Option<Seq<Seq<char>>>
    decreases fuel,
{
    if cur == ROOT_INO || !m.dom().contains(cur) {
        Some(Seq::empty())
    } else if fuel == 0 {
        None
    } else {
        match ancestor_names(m, m[cur].parent_ino.0, (fuel - 1) as nat) {
            Some(s) => Some(if m[cur].name@.len() == 0 { s } else { s.push(m[cur].name@) }),
            None => None,
        }
    }
}

/// Whether walking up the parents from `ino` ends (at the root or an unknown inode).
pub open spec fn reaches_root(m: Map<u64, InodeEntry>, ino: u64) -> bool {
    exists|f: nat| (#[trigger] ancestor_names(m, ino, f)) is Some
}

/// The names on the way from the root down to `ino` (see `ancestor_names`).
pub open spec fn chain_names(m: Map<u64, InodeEntry>, ino: u64) -> Seq<Seq<char>> {
    ancestor_names(m, ino, choose|f: nat| (#[trigger] ancestor_names(m, ino, f)) is Some)->Some_0
}

/// A finished walk gives the same names whatever fuel it was given.
proof fn lemma_ancestor_names_fuel(m: Map<u64, InodeEntry>, cur: u64, f1: nat, f2: nat)
    requires
        ancestor_names(m, cur, f1) is Some,
        ancestor_names(m, cur, f2) is Some,
    ensures
        ancestor_names(m, cur, f1) == ancestor_names(m, cur, f2),
    decreases f1,
{
    if cur == ROOT_INO || !m.dom().contains(cur) {
    } else {
        lemma_ancestor_names_fuel(m, m[cur].parent_ino.0, (f1 - 1) as nat, (f2 - 1) as nat);
    }
}

/// `comp` appended to path `base` the way `PathBuf::push` does on Unix: an
/// absolute component replaces the path, otherwise a `/` separates them
/// unless `base` is empty or already ends in one.
pub open spec fn path_join(base: Seq<char>, comp: Seq<char>) -> Seq<char> {
    if comp.len() > 0 && comp[0] == '/' {
        comp
    } else if base.len() > 0 && base.last() != '/' {
        base + "/"@ + comp
    } else {
        base + comp
    }
}

/// `base` with every component of `comps` appended in order.
pub open spec fn join_all(base: Seq<char>, comps: Seq<Seq<char>>) -> Seq<char>
    decreases comps.len(),
{
    if comps.len() == 0 {
        base
    } else {
        path_join(join_all(base, comps.drop_last()), comps.last())
    }
}

/// The components separated by `/`.
pub open spec fn join_slash(comps: Seq<Seq<char>>) -> Seq<char>
    decreases comps.len(),
{
    if comps.len() == 0 {
        Seq::empty()
    } else if comps.len() == 1 {
        comps[0]
    } else {
        join_slash(comps.drop_last()) + "/"@ + comps.last()
    }
}

/// Appends `comp` to path `base` like `PathBuf::push` on Unix.
pub fn push_path(base: &mut String, comp: &str)
    ensures
        final(base)@ == path_join(old(base)@, comp@),
{
    let starts_abs = comp.unicode_len() > 0 && comp.get_char(0) == '/';
    if starts_abs {
        *base = crate::text::to_string(comp);
        return;
    }
    let ghost b0 = base@;
    let n = base.as_str().unicode_len();
    let needs_sep = n > 0 && base.as_str().get_char(n - 1) != '/';
    assert(needs_sep == (b0.len() > 0 && b0.last() != '/'));
    if needs_sep {
        push_str(base, "/");
    }
    push_str(base, comp);
    proof {
        assert(final(base)@ =~= path_join(b0, comp@));
    }
}

impl LnxDriveFs {
    /// Names from the root down to `ino`, root side first.
    fn ancestor_components(&self, ino: u64) -> (r: Vec<String>)
        requires
            reaches_root(self.entries(), ino),
        ensures
            r@.map_values(|s: String| s@) == chain_names(self.entries(), ino),
    {
        let ghost m = self.entries();
        let ghost f0: nat = choose|f: nat| (#[trigger] ancestor_names(m, ino, f)) is Some;
        let ghost mut f: nat = f0;
        let mut rev: Vec<String> = Vec::new();
        let mut cur = ino;
        while cur != ROOT_INO
            invariant
                m == self.entries(),
                ancestor_names(m, cur, f) is Some,
                ancestor_names(m, ino, f0) is Some,
                ancestor_names(m, ino, f0)->Some_0 == ancestor_names(m, cur, f)->Some_0
                    + rev@.map_values(|s: String| s@).reverse(),
            ensures
                ancestor_names(m, ino, f0)->Some_0 == ancestor_names(m, cur, f)->Some_0
                    + rev@.map_values(|s: String| s@).reverse(),
                cur == ROOT_INO || !m.dom().contains(cur),
            decreases f,
        {
            match self.inode_table.get(cur) {
                Some(e) => {
                    let ghost before = rev@.map_values(|s: String| s@).reverse();
                    let ghost parent_names = ancestor_names(m, e.parent_ino.0, (f - 1) as nat)->Some_0;
                    if e.name.as_str().unicode_len() > 0 {
                        rev.push(e.name.clone());
                        proof {
                            assert(rev@.map_values(|s: String| s@).reverse() =~= seq![e.name@] + before);
                            assert(parent_names.push(e.name@) + before =~= parent_names + (seq![e.name@] + before));
                        }
                    } else {
                        assert(rev@.map_values(|s: String| s@).reverse() =~= before);
                    }
                    cur = e.parent_ino.0;
                    proof { f = (f - 1) as nat; }
                },
                None => {
                    break;
                },
            }
        }
        proof {
            assert(ancestor_names(m, cur, f)->Some_0 =~= Seq::<Seq<char>>::empty());
        }
        let mut out: Vec<String> = Vec::new();
        let mut i = rev.len();
        let ghost rv = rev@.map_values(|s: String| s@).reverse();
        while i > 0
            invariant
                i <= rev@.len(),
                rv == rev@.map_values(|s: String| s@).reverse(),
                out@.map_values(|s: String| s@) =~= rv.subrange(0, rev@.len() - i),
            decreases i,
        {
            i = i - 1;
            let ghost before = out@.map_values(|s: String| s@);
            let c = rev[i].clone();
            out.push(c);
            proof {
                assert(rv[rev@.len() - 1 - i] == rev@[i as int]@);
                assert(out@.map_values(|s: String| s@) =~= before.push(c@));
                assert(out@.map_values(|s: String| s@) =~= rv.subrange(0, rev@.len() - i));
            }
        }
        proof {
            let c = choose|f: nat| (#[trigger] ancestor_names(m, ino, f)) is Some;
            lemma_ancestor_names_fuel(m, ino, f0, c);
            assert(out@.map_values(|s: String| s@) =~= rev@.map_values(|s: String| s@).reverse());
        }
        out
    }

    /// Local path of a new entry `name` under `parent_ino`: the mount point
    /// joined with the names of the parents and then `name`.
    pub fn build_local_path(&self, parent_ino: u64, name: &str) -> (r: String)
        requires
            reaches_root(self.entries(), parent_ino),
        ensures
            r@ == join_all(self.config.mount_point@, chain_names(self.entries(), parent_ino).push(name@)),
    {
        let comps = self.ancestor_components(parent_ino);
        let ghost cs = chain_names(self.entries(), parent_ino).push(name@);
        let mut path = self.config.mount_point.clone();
        let mut i: usize = 0;
        while i < comps.len()
            invariant
                i <= comps@.len(),
                comps@.map_values(|s: String| s@) == chain_names(self.entries(), parent_ino),
                cs == chain_names(self.entries(), parent_ino).push(name@),
                path@ == join_all(self.config.mount_point@, cs.subrange(0, i as int)),
            decreases comps@.len() - i,
        {
            push_path(&mut path, comps[i].as_str());
            proof {
                assert(cs.subrange(0, i + 1).drop_last() =~= cs.subrange(0, i as int));
                assert(cs.subrange(0, i + 1).last() == comps@[i as int]@);
            }
            i = i + 1;
        }
        push_path(&mut path, name);
        proof {
            assert(cs.drop_last() =~= cs.subrange(0, i as int));
        }
        path
    }

    /// Remote path of a new entry `name` under `parent_ino`: `/` followed by
    /// the names of the parents and `name`, separated by `/`.
    pub fn build_remote_path(&self, parent_ino: u64, name: &str) -> (r: String)
        requires
            reaches_root(self.entries(), parent_ino),
        ensures
            r@ == "/"@ + join_slash(chain_names(self.entries(), parent_ino).push(name@)),
    {
        let comps = self.ancestor_components(parent_ino);
        let ghost cs = chain_names(self.entries(), parent_ino).push(name@);
        let mut path = String::new();
        push_str(&mut path, "/");
        assert(path@ =~= "/"@ + join_slash(cs.subrange(0, 0)));
        let mut i: usize = 0;
        while i < comps.len()
            invariant
                i <= comps@.len(),
                comps@.map_values(|s: String| s@) == chain_names(self.entries(), parent_ino),
                cs == chain_names(self.entries(), parent_ino).push(name@),
                path@ == "/"@ + join_slash(cs.subrange(0, i as int)),
            decreases comps@.len() - i,
        {
            let ghost p0 = path@;
            if i > 0 {
                push_str(&mut path, "/");
            }
            push_str(&mut path, comps[i].as_str());
            proof {
                assert(cs.subrange(0, i + 1).drop_last() =~= cs.subrange(0, i as int));
                assert(cs.subrange(0, i + 1).last() == comps@[i as int]@);
                if i == 0 {
                    assert(cs.subrange(0, 1) =~= seq![comps@[0]@]);
                    assert(path@ =~= "/"@ + join_slash(cs.subrange(0, i + 1)));
                } else {
                    assert(path@ =~= p0 + "/"@ + comps@[i as int]@);
                    assert(path@ =~= "/"@ + join_slash(cs.subrange(0, i + 1)));
                }
            }
            i = i + 1;
        }
        let ghost p0 = path@;
        if i > 0 {
            push_str(&mut path, "/");
        }
        push_str(&mut path, name);
        proof {
            assert(cs.drop_last() =~= cs.subrange(0, i as int));
            if i == 0 {
                assert(cs =~= seq![name@]);
            } else {
                assert(path@ =~= p0 + "/"@ + name@);
            }
            assert(path@ =~= "/"@ + join_slash(cs));
        }
        path
    }

    /// Whether walking up the parents from `ino` ends within as many steps as
    /// the table has entries plus one.
    pub fn parent_chain_ends(&self, ino: u64) -> (r: bool)
        ensures
            r == (ancestor_names(self.entries(), ino, (self.entries().len() + 1) as nat) is Some),
            r ==> reaches_root(self.entries(), ino),
    {
        let ghost m = self.entries();
        let limit = self.inode_table.len();
        let ghost total: nat = (m.len() + 1) as nat;
        let mut steps: usize = 0;
        let mut cur = ino;
        let mut done = false;
        while steps < limit && !done
            invariant
                m == self.entries(),
                limit == m.len(),
                total == m.len() + 1,
                steps <= limit,
                !done ==> (ancestor_names(m, ino, total) is Some <==> ancestor_names(m, cur, (total - steps) as nat) is Some),
                done ==> ancestor_names(m, ino, total) is Some,
            decreases limit - steps + (if done { 0int } else { 1int }),
        {
            if cur == ROOT_INO {
                done = true;
            } else {
                match self.inode_table.get(cur) {
                    None => {
                        done = true;
                    },
                    Some(e) => {
                        let ghost rem: nat = (total - steps) as nat;
                        assert(ancestor_names(m, cur, rem) is Some <==>
                            ancestor_names(m, e.parent_ino.0, (rem - 1) as nat) is Some);
                        cur = e.parent_ino.0;
                        steps = steps + 1;
                    },
                }
            }
        }
        if !done {
            // One step is left: `steps == limit`, so one unit of fuel remains.
            if cur == ROOT_INO {
                done = true;
            } else {
                match self.inode_table.get(cur) {
                    None => {
                        done = true;
                    },
                    Some(e) => {
                        assert(ancestor_names(m, cur, 1) is Some <==>
                            ancestor_names(m, e.parent_ino.0, 0) is Some);
                        done = e.parent_ino.0 == ROOT_INO || self.inode_table.get(e.parent_ino.0).is_none();
                    },
                }
            }
        }
        if done {
            assert(reaches_root(m, ino)) by {
                assert(ancestor_names(m, ino, total) is Some);
            }
        }
        done
    }
}

// ---------------------------------------------------------------------------
// Loading the table
// ---------------------------------------------------------------------------

/// What the filesystem needs of a stored sync item.
#[derive(Debug, Clone)]
pub struct ItemRecord {
    /// Identifier of the item.
    pub id: UniqueId,
    /// Inode assigned earlier, if any.
    pub inode: Option<u64>,
    /// Local path of the item.
    pub local_path: String,
    /// OneDrive id, if known.
    pub remote_id: Option<String>,
    /// Whether the item is a directory.
    pub is_directory: bool,
    /// Size in bytes.
    pub size_bytes: u64,
    /// Sync state.
    pub state: ItemState,
    /// Local modification time, if known.
    pub modified: Option<SystemTime>,
    /// Last access time, if known.
    pub accessed: Option<SystemTime>,
}

/// Resets every item left `Hydrating` by a crash to `Online` and returns
/// their positions, in order, so that the caller can clean up partial
/// downloads and save them.
pub fn recover_stale_hydrations(items: &mut Vec<ItemRecord>) -> (r: Vec<usize>)
    ensures
        final(items)@.len() == old(items)@.len(),
        forall|i: int| 0 <= i < old(items)@.len() ==> {
            &&& (old(items)@[i].state is Hydrating) ==>
                #[trigger] final(items)@[i] == (ItemRecord { state: ItemState::Online, ..old(items)@[i] })
            &&& !(old(items)@[i].state is Hydrating) ==> final(items)@[i] == old(items)@[i]
        },
        forall|j: int| 0 <= j < r@.len() ==> r@[j] < old(items)@.len() && (old(items)@[#[trigger] r@[j] as int].state is Hydrating),
        forall|i: int| 0 <= i < old(items)@.len() && (#[trigger] old(items)@[i].state is Hydrating) ==>
            exists|j: int| 0 <= j < r@.len() && r@[j] == i,
        forall|a: int, b: int| 0 <= a < b < r@.len() ==> r@[a] < r@[b],
{
    let mut out: Vec<usize> = Vec::new();
    let mut i: usize = 0;
    while i < items.len()
        invariant
            i <= items@.len(),
            items@.len() == old(items)@.len(),
            forall|k: int| 0 <= k < i ==> {
                &&& (old(items)@[k].state is Hydrating) ==>
                    #[trigger] items@[k] == (ItemRecord { state: ItemState::Online, ..old(items)@[k] })
                &&& !(old(items)@[k].state is Hydrating) ==> items@[k] == old(items)@[k]
            },
            forall|k: int| i <= k < items@.len() ==> #[trigger] items@[k] == old(items)@[k],
            forall|j: int| 0 <= j < out@.len() ==> out@[j] < i && (old(items)@[#[trigger] out@[j] as int].state is Hydrating),
            forall|k: int| 0 <= k < i && (#[trigger] old(items)@[k].state is Hydrating) ==>
                exists|j: int| 0 <= j < out@.len() && out@[j] == k,
            forall|a: int, b: int| 0 <= a < b < out@.len() ==> out@[a] < out@[b],
        decreases items@.len() - i,
    {
        let stale = match items[i].state {
            ItemState::Hydrating => true,
            _ => false,
        };
        let ghost old_out = out@;
        if stale {
            let mut rec = items[i].clone_record();
            rec.state = ItemState::Online;
            items.set(i, rec);
            out.push(i);
            proof {
                assert(out@[out@.len() - 1] == i);
            }
        }
        proof {
            assert forall|k: int| 0 <= k < i + 1 && (#[trigger] old(items)@[k].state is Hydrating) implies
                exists|j: int| 0 <= j < out@.len() && out@[j] == k by {
                if k == i {
                    assert(out@[out@.len() - 1] == k);
                } else {
                    let j = choose|j: int| 0 <= j < old_out.len() && old_out[j] == k;
                    assert(out@[j] == old_out[j]);
                }
            }
        }
        i = i + 1;
    }
    out
}

impl ItemRecord {
    /// A copy of this record.
    pub fn clone_record(&self) -> (r: ItemRecord)
        ensures
            r == *self,
    {
        ItemRecord {
            id: self.id,
            inode: self.inode,
            local_path: self.local_path.clone(),
            remote_id: match &self.remote_id {
                Some(s) => Some(s.clone()),
                None => None,
            },
            is_directory: self.is_directory,
            size_bytes: self.size_bytes,
            state: self.state.duplicate(),
            modified: self.modified,
            accessed: self.accessed,
        }
    }
}

/// The last path component of a path, as `Path::file_name` gives it.
pub uninterp spec fn path_file_name(p: Seq<char>) -> Option<Seq<char>>;

/// The path without its last component, as `Path::parent` gives it.
pub uninterp spec fn path_parent(p: Seq<char>) -> Option<Seq<char>>;

/// `Path::file_name`: the final component of `p` (none when `p` ends in `..`
/// or is a root or empty).
#[verifier::external_body]
fn file_name_of(p: &str) -> (r: Option<String>)
    ensures
        match r {
            Some(s) => path_file_name(p@) == Some(s@),
            None => path_file_name(p@) is None,
        },
{
    std::path::Path::new(p).file_name().and_then(|s| s.to_str()).map(|s| s.to_string())
}

/// `Path::parent`: `p` without its final component (none for a root or an empty path).
#[verifier::external_body]
fn parent_of(p: &str) -> (r: Option<String>)
    ensures
        match r {
            Some(s) => path_parent(p@) == Some(s@),
            None => path_parent(p@) is None,
        },
{
    std::path::Path::new(p).parent().and_then(|s| s.to_str()).map(|s| s.to_string())
}

/// The name an item gets in its directory: the last component of its path,
/// or empty when there is none.
pub open spec fn record_name(r: ItemRecord) -> Seq<char> {
    match path_file_name(r.local_path@) {
        Some(n) => n,
        None => Seq::empty(),
    }
}

/// Whether `e` is the entry made for item `r` under inode `ino` in directory
/// `parent`, with `now` standing in for missing times.
pub open spec fn entry_of_record(e: InodeEntry, r: ItemRecord, ino: u64, parent: u64, now: SystemTime) -> bool {
    &&& e.ino.0 == ino
    &&& e.item_id == r.id
    &&& e.remote_id == r.remote_id
    &&& e.parent_ino.0 == parent
    &&& e.name@ == record_name(r)
    &&& e.kind == (if r.is_directory { FileKind::Directory } else { FileKind::RegularFile })
    &&& e.size == (if r.is_directory { 0 } else { r.size_bytes })
    &&& e.perm == (if r.is_directory { 0o755u16 } else { 0o644u16 })
    &&& e.mtime == (match r.modified { Some(t) => t, None => now })
    &&& e.ctime == e.mtime
    &&& e.atime == (match r.accessed { Some(t) => t, None => now })
    &&& e.nlink == 1
    &&& e.lookup_count == 0
    &&& e.open_handles == 0
    &&& e.state == r.state
}

/// The entry for item `r` under inode `ino` in directory `parent`.
pub fn record_to_entry(r: &ItemRecord, ino: u64, parent: u64, now: SystemTime) -> (e: InodeEntry)
    ensures
        entry_of_record(e, *r, ino, parent, now),
{
    let kind = if r.is_directory { FileKind::Directory } else { FileKind::RegularFile };
    let size = if r.is_directory { 0 } else { r.size_bytes };
    let perm: u16 = if r.is_directory { 0o755 } else { 0o644 };
    let mtime = match r.modified {
        Some(t) => t,
        None => now,
    };
    let atime = match r.accessed {
        Some(t) => t,
        None => now,
    };
    let name = match file_name_of(r.local_path.as_str()) {
        Some(n) => n,
        None => String::new(),
    };
    let remote_id = match &r.remote_id {
        Some(s) => Some(s.clone()),
        None => None,
    };
    InodeEntry::new(InodeNumber(ino), r.id, remote_id, InodeNumber(parent), name, kind, size, perm,
        mtime, mtime, atime, 1, r.state.duplicate())
}

/// Whether `e` is the root entry: inode 1, its own parent, no name, a
/// `Hydrated` directory with two links.
pub open spec fn is_root_entry(e: InodeEntry, id: UniqueId, now: SystemTime) -> bool {
    &&& e.ino.0 == ROOT_INO
    &&& e.item_id == id
    &&& e.remote_id is None
    &&& e.parent_ino.0 == ROOT_INO
    &&& e.name@.len() == 0
    &&& e.kind == FileKind::Directory
    &&& e.size == 0
    &&& e.perm == 0o755
    &&& e.mtime == now && e.ctime == now && e.atime == now
    &&& e.nlink == 2
    &&& e.lookup_count == 0
    &&& e.open_handles == 0
    &&& e.state == ItemState::Hydrated
}

/// Whether position `i` is the last of the first `t` items with local path `p`.
pub open spec fn is_last_path(items: Seq<(ItemRecord, u64)>, i: int, p: Seq<char>, t: int) -> bool {
    &&& 0 <= i < t
    &&& items[i].0.local_path@ == p
    &&& forall|j: int| i < j < t ==> (#[trigger] items[j]).0.local_path@ != p
}

/// Whether position `i` is the last of the first `t` items with inode `k`.
pub open spec fn is_last_ino(items: Seq<(ItemRecord, u64)>, i: int, k: u64, t: int) -> bool {
    &&& 0 <= i < t
    &&& items[i].1 == k
    &&& forall|j: int| i < j < t ==> (#[trigger] items[j]).1 != k
}

/// Whether position `i` is the last of the first `t` items with item id `id`.
pub open spec fn is_last_id(items: Seq<(ItemRecord, u64)>, i: int, id: u128, t: int) -> bool {
    &&& 0 <= i < t
    &&& items[i].0.id.0 == id
    &&& forall|j: int| i < j < t ==> (#[trigger] items[j]).0.id.0 != id
}

/// The directory an item is placed in: the inode of the last item whose path
/// is the item's parent path, else the root.
pub open spec fn parent_inode(items: Seq<(ItemRecord, u64)>, r: ItemRecord) -> u64 {
    match path_parent(r.local_path@) {
        Some(pp) => if exists|i: int| is_last_path(items, i, pp, items.len() as int) {
            items[choose|i: int| is_last_path(items, i, pp, items.len() as int)].1
        } else {
            ROOT_INO
        },
        None => ROOT_INO,
    }
}

/// Whether `m` is `base` after inserting, in order, the entries of the first
/// `t` items (placed by `parent_inode` over all of `items`).
pub open spec fn loaded(m: Map<u64, InodeEntry>, base: Map<u64, InodeEntry>, items: Seq<(ItemRecord, u64)>,
    t: int, now: SystemTime) -> bool {
    &&& forall|k: u64| #[trigger] m.dom().contains(k) <==>
        (base.dom().contains(k) || exists|i: int| 0 <= i < t && items[i].1 == k)
    &&& forall|k: u64, i: int| #[trigger] is_last_ino(items, i, k, t) ==>
        entry_of_record(m[k], items[i].0, k, parent_inode(items, items[i].0), now)
    &&& forall|k: u64| #[trigger] base.dom().contains(k) && !(exists|i: int| 0 <= i < t && items[i].1 == k) ==>
        m[k] == base[k]
}

/// Whether `x` is `base` after recording, in order, item id -> inode for the first `t` items.
pub open spec fn indexed(x: Map<u128, u64>, base: Map<u128, u64>, items: Seq<(ItemRecord, u64)>, t: int) -> bool {
    &&& forall|id: u128| #[trigger] x.dom().contains(id) <==>
        (base.dom().contains(id) || exists|i: int| 0 <= i < t && items[i].0.id.0 == id)
    &&& forall|id: u128, i: int| #[trigger] is_last_id(items, i, id, t) ==> x[id] == items[i].1
    &&& forall|id: u128| #[trigger] base.dom().contains(id) && !(exists|i: int| 0 <= i < t && items[i].0.id.0 == id) ==>
        x[id] == base[id]
}

/// Two last positions for the same path are the same position.
proof fn lemma_last_path_unique(items: Seq<(ItemRecord, u64)>, i: int, j: int, p: Seq<char>, t: int)
    requires
        is_last_path(items, i, p, t),
        is_last_path(items, j, p, t),
    ensures
        i == j,
{
    if i < j {
        assert(items[j].0.local_path@ != p);
    } else if j < i {
        assert(items[i].0.local_path@ != p);
    }
}

/// Among the first `t` items, a path that occurs has a last occurrence.
proof fn lemma_last_path_exists(items: Seq<(ItemRecord, u64)>, i: int, p: Seq<char>, t: int)
    requires
        0 <= i < t,
        items[i].0.local_path@ == p,
    ensures
        exists|l: int| is_last_path(items, l, p, t),
    decreases t - i,
{
    if exists|j: int| i < j < t && (#[trigger] items[j]).0.local_path@ == p {
        let j = choose|j: int| i < j < t && (#[trigger] items[j]).0.local_path@ == p;
        lemma_last_path_exists(items, j, p, t);
    } else {
        assert(is_last_path(items, i, p, t));
    }
}

impl LnxDriveFs {
    /// Loads the table at mount time: the root entry, then one entry per item
    /// (with the inode assigned to it), each placed under the item whose path
    /// is its parent path, or under the root when there is none.
    pub fn populate(&mut self, root_id: UniqueId, now: SystemTime, items: Vec<(ItemRecord, u64)>)
        ensures
            LnxDriveFs::same_rest(old(self), final(self)),
            exists|root: InodeEntry| {
                &&& is_root_entry(root, root_id, now)
                &&& loaded(final(self).entries(), old(self).entries().insert(ROOT_INO, root), items@, items@.len() as int, now)
            },
            indexed(final(self).inode_table.item_index(),
                old(self).inode_table.item_index().insert(root_id.0, ROOT_INO), items@, items@.len() as int),
    {
        let root = InodeEntry::new(InodeNumber(ROOT_INO), root_id, None, InodeNumber(ROOT_INO), String::new(),
            FileKind::Directory, 0, 0o755, now, now, now, 2, ItemState::Hydrated);
        let ghost root_v = root;
        self.inode_table.insert(root);
        let ghost base = self.entries();
        let ghost base_idx = self.inode_table.item_index();
        let ghost its = items@;

        // First pass: path -> inode, later items winning.
        let mut paths: StringHashMap<u64> = StringHashMap::new();
        let mut t: usize = 0;
        while t < items.len()
            invariant
                t <= its.len(),
                its == items@,
                forall|p: Seq<char>| #[trigger] paths@.contains_key(p) <==>
                    exists|i: int| 0 <= i < t && its[i].0.local_path@ == p,
                forall|p: Seq<char>, i: int| #[trigger] is_last_path(its, i, p, t as int) ==> paths@[p] == its[i].1,
            decreases its.len() - t,
        {
            let p = items[t].0.local_path.clone();
            let ino = items[t].1;
            let ghost pv = p@;
            paths.insert(p, ino);
            proof {
                assert forall|q: Seq<char>| #[trigger] paths@.contains_key(q) <==>
                    exists|i: int| 0 <= i < t + 1 && its[i].0.local_path@ == q by {
                    if q == pv {
                        assert(its[t as int].0.local_path@ == q);
                    }
                }
                assert forall|q: Seq<char>, i: int| #[trigger] is_last_path(its, i, q, t + 1) implies paths@[q] == its[i].1 by {
                    if q == pv {
                        if i < t {
                            assert(its[t as int].0.local_path@ != q);
                        }
                    } else {
                        assert(is_last_path(its, i, q, t as int));
                    }
                }
            }
            t = t + 1;
        }

        // Second pass: the entries.
        let mut s: usize = 0;
        while s < items.len()
            invariant
                s <= its.len(),
                its == items@,
                LnxDriveFs::same_rest(old(self), self),
                forall|p: Seq<char>| #[trigger] paths@.contains_key(p) <==>
                    exists|i: int| 0 <= i < its.len() && its[i].0.local_path@ == p,
                forall|p: Seq<char>, i: int| #[trigger] is_last_path(its, i, p, its.len() as int) ==> paths@[p] == its[i].1,
                loaded(self.entries(), base, its, s as int, now),
                indexed(self.inode_table.item_index(), base_idx, its, s as int),
                base == old(self).entries().insert(ROOT_INO, root_v),
                base_idx == old(self).inode_table.item_index().insert(root_id.0, ROOT_INO),
                is_root_entry(root_v, root_id, now),
            decreases its.len() - s,
        {
            let rec = &items[s].0;
            let ino = items[s].1;
            let parent = match parent_of(rec.local_path.as_str()) {
                Some(pp) => match paths.get(pp.as_str()) {
                    Some(x) => *x,
                    None => ROOT_INO,
                },
                None => ROOT_INO,
            };
            proof {
                match path_parent(rec.local_path@) {
                    Some(pp) => {
                        if paths@.contains_key(pp) {
                            let i = choose|i: int| 0 <= i < its.len() && its[i].0.local_path@ == pp;
                            // The last such position exists and is the one `parent_inode` picks.
                            lemma_last_path_exists(its, i, pp, its.len() as int);
                            let l = choose|l: int| is_last_path(its, l, pp, its.len() as int);
                            let c = choose|i: int| is_last_path(its, i, pp, its.len() as int);
                            lemma_last_path_unique(its, l, c, pp, its.len() as int);
                        }
                    },
                    None => {},
                }
                assert(parent == parent_inode(its, its[s as int].0));
            }
            let e = record_to_entry(rec, ino, parent, now);
            let ghost m0 = self.entries();
            let ghost x0 = self.inode_table.item_index();
            self.inode_table.insert(e);
            proof {
                let m1 = self.entries();
                assert forall|k: u64| #[trigger] m1.dom().contains(k) <==>
                    (base.dom().contains(k) || exists|i: int| 0 <= i < s + 1 && its[i].1 == k) by {
                    if k == ino {
                        assert(its[s as int].1 == k);
                    }
                }
                assert forall|k: u64, i: int| #[trigger] is_last_ino(its, i, k, s + 1) implies
                    entry_of_record(m1[k], its[i].0, k, parent_inode(its, its[i].0), now) by {
                    if k == ino {
                        if i < s {
                            assert(its[s as int].1 != k);
                        }
                    } else {
                        assert(is_last_ino(its, i, k, s as int));
                    }
                }
                assert forall|k: u64| #[trigger] base.dom().contains(k) && !(exists|i: int| 0 <= i < s + 1 && its[i].1 == k) implies
                    m1[k] == base[k] by {
                    assert(its[s as int].1 != k);
                }
                let x1 = self.inode_table.item_index();
                let idv = its[s as int].0.id.0;
                assert forall|id: u128| #[trigger] x1.dom().contains(id) <==>
                    (base_idx.dom().contains(id) || exists|i: int| 0 <= i < s + 1 && its[i].0.id.0 == id) by {
                    if id == idv {
                        assert(its[s as int].0.id.0 == id);
                    }
                }
                assert forall|id: u128, i: int| #[trigger] is_last_id(its, i, id, s + 1) implies x1[id] == its[i].1 by {
                    if id == idv {
                        if i < s {
                            assert(its[s as int].0.id.0 != id);
                        }
                    } else {
                        assert(is_last_id(its, i, id, s as int));
                    }
                }
                assert forall|id: u128| #[trigger] base_idx.dom().contains(id) && !(exists|i: int| 0 <= i < s + 1 && its[i].0.id.0 == id) implies
                    x1[id] == base_idx[id] by {
                    assert(its[s as int].0.id.0 != id);
                }
            }
            s = s + 1;
        }
    }
}

} // verus!
