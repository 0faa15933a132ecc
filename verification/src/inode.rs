//! Inode table: the bidirectional mapping inode <-> item id.
//!
//! Both directions live in `dashmap::DashMap`s, reached only through the
//! trusted wrappers at the end of this file.

use dashmap::DashMap;
use vstd::prelude::*;

use crate::inode_entry::InodeEntry;
use crate::state::UniqueId;

verus! {

/// Table of live inode entries, keyed by inode number, with a reverse index
/// from item id to inode number.
pub struct InodeTable {
    by_inode: DashMap<u64, InodeEntry>,
    by_item_id: DashMap<u128, u64>,
}

/// Every entry is stored under its own inode number.
pub open spec fn keys_match(m: Map<u64, InodeEntry>) -> bool {
    &&& m.dom().finite()
    &&& forall|k: u64| #[trigger] m.dom().contains(k) ==> m[k].ino.0 == k
}

/// The contents of a table with no entry.
pub open spec fn no_entries() -> Map<u64, InodeEntry> {
    Map::empty()
}

/// The contents of an empty reverse index.
pub open spec fn no_index() -> Map<u128, u64> {
    Map::empty()
}

/// Entries of `m` whose parent is `parent`.
pub open spec fn is_child(m: Map<u64, InodeEntry>, k: u64, parent: u64) -> bool {
    m.dom().contains(k) && m[k].parent_ino.0 == parent
}

/// Entries of `m` with parent `parent` and name `name`.
pub open spec fn is_named_child(m: Map<u64, InodeEntry>, k: u64, parent: u64, name: Seq<char>) -> bool {
    is_child(m, k, parent) && m[k].name@ == name
}

/// Entries with pairwise distinct inode numbers, all stored in `m`, are no more than `m` holds.
proof fn lemma_distinct_inos_bounded(es: Seq<InodeEntry>, m: Map<u64, InodeEntry>)
    requires
        m.dom().finite(),
        forall|i: int| 0 <= i < es.len() ==> m.dom().contains(#[trigger] es[i].ino.0),
        forall|i: int, j: int| 0 <= i < j < es.len() ==> es[i].ino.0 != es[j].ino.0,
    ensures
        es.len() <= m.len(),
{
    let inos = es.map_values(|e: InodeEntry| e.ino.0);
    assert(inos.no_duplicates()) by {
        assert forall|i: int, j: int| 0 <= i < inos.len() && 0 <= j < inos.len() && i != j
            implies inos[i] != inos[j] by {
            if i < j {
                assert(es[i].ino.0 != es[j].ino.0);
            } else {
                assert(es[j].ino.0 != es[i].ino.0);
            }
        }
    }
    inos.unique_seq_to_set();
    assert(inos.to_set().subset_of(m.dom())) by {
        assert forall|k: u64| inos.to_set().contains(k) implies m.dom().contains(k) by {
            let i = choose|i: int| 0 <= i < inos.len() && inos[i] == k;
            assert(m.dom().contains(es[i].ino.0));
        }
    }
    vstd::set_lib::lemma_len_subset(inos.to_set(), m.dom());
}

impl View for InodeTable {
    type V = Map<u64, InodeEntry>;

    closed spec fn view(&self) -> Map<u64, InodeEntry> {
        inode_entries_of(self.by_inode)
    }
}

impl InodeTable {
    #[verifier::type_invariant]
    closed spec fn inv(&self) -> bool {
        keys_match(inode_entries_of(self.by_inode))
    }

    /// The reverse index: item id value -> inode number.
    pub closed spec fn item_index(&self) -> Map<u128, u64> {
        item_index_of(self.by_item_id)
    }

    /// Creates an empty table.
    pub fn new() -> (r: InodeTable)
        ensures
            r@ == Map::<u64, InodeEntry>::empty(),
            r.item_index() == Map::<u128, u64>::empty(),
    {
        InodeTable { by_inode: new_entry_map(), by_item_id: new_index_map() }
    }

    /// Inserts an entry under its inode number and records item id -> inode.
    pub fn insert(&mut self, entry: InodeEntry)
        ensures
            final(self)@ == old(self)@.insert(entry.ino.0, entry),
            final(self).item_index() == old(self).item_index().insert(entry.item_id.0, entry.ino.0),
    {
        proof { use_type_invariant(&*self); }
        let ino = entry.ino.0;
        let item_id = entry.item_id.0;
        let mut by_inode = new_entry_map();
        std::mem::swap(&mut by_inode, &mut self.by_inode);
        let _ = entry_map_insert(&mut by_inode, ino, entry);
        let mut by_item_id = new_index_map();
        std::mem::swap(&mut by_item_id, &mut self.by_item_id);
        let _ = index_insert(&mut by_item_id, item_id, ino);
        proof {
            let m = inode_entries_of(by_inode);
            assert forall|k: u64| #[trigger] m.dom().contains(k) implies m[k].ino.0 == k by {}
        }
        *self = InodeTable { by_inode, by_item_id };
    }

    /// Replaces the entry stored under `entry.ino`, leaving the reverse index alone.
    pub fn set_entry(&mut self, entry: InodeEntry)
        requires
            old(self)@.dom().contains(entry.ino.0),
        ensures
            final(self)@ == old(self)@.insert(entry.ino.0, entry),
            final(self).item_index() == old(self).item_index(),
    {
        proof { use_type_invariant(&*self); }
        let ino = entry.ino.0;
        let mut by_inode = new_entry_map();
        std::mem::swap(&mut by_inode, &mut self.by_inode);
        let _ = entry_map_insert(&mut by_inode, ino, entry);
        let mut by_item_id = new_index_map();
        std::mem::swap(&mut by_item_id, &mut self.by_item_id);
        *self = InodeTable { by_inode, by_item_id };
    }

    /// The entry stored under `ino`, if any.
    pub fn get(&self, ino: u64) -> (r: Option<InodeEntry>)
        ensures
            r == (if self@.dom().contains(ino) { Some(self@[ino]) } else { None::<InodeEntry> }),
            keys_match(self@),
    {
        proof { use_type_invariant(self); }
        entry_map_get(&self.by_inode, ino)
    }

    /// The inode number recorded for an item id, if any.
    pub fn get_by_item_id(&self, id: &UniqueId) -> (r: Option<u64>)
        ensures
            r == (if self.item_index().dom().contains(id.0) {
                Some(self.item_index()[id.0])
            } else {
                None::<u64>
            }),
    {
        index_get(&self.by_item_id, id.0)
    }

    /// Removes the entry under `ino` together with its item id mapping.
    pub fn remove(&mut self, ino: u64) -> (r: Option<InodeEntry>)
        ensures
            old(self)@.dom().contains(ino) ==> {
                &&& r == Some(old(self)@[ino])
                &&& final(self)@ == old(self)@.remove(ino)
                &&& final(self).item_index() == old(self).item_index().remove(old(self)@[ino].item_id.0)
            },
            !old(self)@.dom().contains(ino) ==> {
                &&& r is None
                &&& final(self)@ == old(self)@
                &&& final(self).item_index() == old(self).item_index()
            },
    {
        proof { use_type_invariant(&*self); }
        let mut by_inode = new_entry_map();
        std::mem::swap(&mut by_inode, &mut self.by_inode);
        let removed = entry_map_remove(&mut by_inode, ino);
        let mut by_item_id = new_index_map();
        std::mem::swap(&mut by_item_id, &mut self.by_item_id);
        match &removed {
            Some(entry) => {
                let _ = index_remove(&mut by_item_id, entry.item_id.0);
            },
            None => {},
        }
        proof {
            let m = inode_entries_of(by_inode);
            assert forall|k: u64| #[trigger] m.dom().contains(k) implies m[k].ino.0 == k by {}
        }
        *self = InodeTable { by_inode, by_item_id };
        removed
    }

    /// All entries whose parent is `parent_ino`, each once, in no particular order.
    pub fn children(&self, parent_ino: u64) -> (r: Vec<InodeEntry>)
        ensures
            forall|i: int| 0 <= i < r@.len() ==> {
                &&& is_child(self@, #[trigger] r@[i].ino.0, parent_ino)
                &&& r@[i] == self@[r@[i].ino.0]
            },
            forall|k: u64| is_child(self@, k, parent_ino) ==>
                exists|i: int| 0 <= i < r@.len() && #[trigger] r@[i].ino.0 == k,
            forall|i: int, j: int| 0 <= i < j < r@.len() ==> r@[i].ino.0 != r@[j].ino.0,
            r@.len() <= self@.len(),
            keys_match(self@),
    {
        proof { use_type_invariant(self); }
        let keys = entry_map_keys(&self.by_inode);
        let mut out: Vec<InodeEntry> = Vec::new();
        let mut i: usize = 0;
        while i < keys.len()
            invariant
                i <= keys@.len(),
                keys@.no_duplicates(),
                forall|k: u64| keys@.contains(k) <==> self@.dom().contains(k),
                keys_match(self@),
                forall|a: int| 0 <= a < out@.len() ==> {
                    &&& is_child(self@, #[trigger] out@[a].ino.0, parent_ino)
                    &&& out@[a] == self@[out@[a].ino.0]
                    &&& exists|b: int| 0 <= b < i && keys@[b] == out@[a].ino.0
                },
                forall|b: int| 0 <= b < i && #[trigger] is_child(self@, keys@[b], parent_ino) ==>
                    exists|a: int| 0 <= a < out@.len() && #[trigger] out@[a].ino.0 == keys@[b],
                forall|a: int, c: int| 0 <= a < c < out@.len() ==> out@[a].ino.0 != out@[c].ino.0,
            decreases keys@.len() - i,
        {
            let k = keys[i];
            assert(keys@.contains(k));
            let ghost old_out = out@;
            match entry_map_get(&self.by_inode, k) {
                Some(entry) => {
                    if entry.parent_ino.0 == parent_ino {
                        proof {
                            assert forall|a: int| 0 <= a < out@.len() implies out@[a].ino.0 != k by {
                                let b = choose|b: int| 0 <= b < i && keys@[b] == out@[a].ino.0;
                                assert(keys@[b] != keys@[i as int]);
                            }
                        }
                        out.push(entry);
                    }
                },
                None => {},
            }
            proof {
                assert forall|b: int| 0 <= b < i + 1 && #[trigger] is_child(self@, keys@[b], parent_ino) implies
                    exists|a: int| 0 <= a < out@.len() && #[trigger] out@[a].ino.0 == keys@[b] by {
                    if b < i {
                        let a = choose|a: int| 0 <= a < old_out.len() && #[trigger] old_out[a].ino.0 == keys@[b];
                        assert(out@[a] == old_out[a]);
                    } else {
                        assert(out@[out@.len() - 1].ino.0 == keys@[b]);
                    }
                }
            }
            i = i + 1;
        }
        proof {
            assert forall|k: u64| is_child(self@, k, parent_ino) implies
                exists|a: int| 0 <= a < out@.len() && #[trigger] out@[a].ino.0 == k by {
                assert(keys@.contains(k));
                let b = choose|b: int| 0 <= b < keys@.len() && keys@[b] == k;
                assert(is_child(self@, keys@[b], parent_ino));
            }
            lemma_distinct_inos_bounded(out@, self@);
        }
        out
    }

    /// A child of `parent_ino` named `name`, if one exists.
    pub fn lookup(&self, parent_ino: u64, name: &str) -> (r: Option<InodeEntry>)
        ensures
            r matches Some(e) ==> is_named_child(self@, e.ino.0, parent_ino, name@) && e == self@[e.ino.0],
            r is None ==> forall|k: u64| !is_named_child(self@, k, parent_ino, name@),
            keys_match(self@),
    {
        let kids = self.children(parent_ino);
        let mut i: usize = 0;
        while i < kids.len()
            invariant
                i <= kids@.len(),
                forall|a: int| 0 <= a < kids@.len() ==> {
                    &&& is_child(self@, #[trigger] kids@[a].ino.0, parent_ino)
                    &&& kids@[a] == self@[kids@[a].ino.0]
                },
                forall|k: u64| is_child(self@, k, parent_ino) ==>
                    exists|a: int| 0 <= a < kids@.len() && #[trigger] kids@[a].ino.0 == k,
                forall|a: int| 0 <= a < i ==> (#[trigger] kids@[a]).name@ != name@,
                keys_match(self@),
            decreases kids@.len() - i,
        {
            if crate::text::str_eq(kids[i].name.as_str(), name) {
                let e = kids[i].duplicate();
                return Some(e);
            }
            i = i + 1;
        }
        proof {
            assert forall|k: u64| !is_named_child(self@, k, parent_ino, name@) by {
                if is_named_child(self@, k, parent_ino, name@) {
                    let a = choose|a: int| 0 <= a < kids@.len() && #[trigger] kids@[a].ino.0 == k;
                    assert(kids@[a].name@ != name@);
                }
            }
        }
        None
    }

    /// Number of entries.
    pub fn len(&self) -> (r: usize)
        ensures
            r == self@.len(),
            keys_match(self@),
    {
        proof { use_type_invariant(self); }
        entry_map_len(&self.by_inode)
    }

    /// Whether the table holds no entry.
    pub fn is_empty(&self) -> (r: bool)
        ensures
            r == (self@.len() == 0),
    {
        entry_map_len(&self.by_inode) == 0
    }
}

impl Default for InodeTable {
    fn default() -> (r: InodeTable)
        ensures
            r@ == Map::<u64, InodeEntry>::empty(),
            r.item_index() == Map::<u128, u64>::empty(),
    {
        InodeTable::new()
    }
}

// ---------------------------------------------------------------------------
// dashmap: declaration, contents and wrappers
// ---------------------------------------------------------------------------

/// `dashmap::DashMap`, held opaquely; its contents are named below.
#[verifier::external_type_specification]
#[verifier::external_body]
#[verifier::reject_recursive_types(K)]
#[verifier::reject_recursive_types(V)]
#[verifier::reject_recursive_types(S)]
pub struct ExDashMap<K, V, S>(dashmap::DashMap<K, V, S>);

/// What an inode-keyed `DashMap` holds.
pub uninterp spec fn inode_entries_of(m: DashMap<u64, InodeEntry>) -> Map<u64, InodeEntry>;

/// What an item-id-keyed `DashMap` holds.
pub uninterp spec fn item_index_of(m: DashMap<u128, u64>) -> Map<u128, u64>;

/// `DashMap::new`: a map with no entry.
#[verifier::external_body]
fn new_entry_map() -> (r: DashMap<u64, InodeEntry>)
    ensures
        inode_entries_of(r) == no_entries(),
{
    DashMap::new()
}

/// `DashMap::insert`: stores `v` under `k` and hands back the value it replaced.
#[verifier::external_body]
fn entry_map_insert(m: &mut DashMap<u64, InodeEntry>, k: u64, v: InodeEntry) -> (r: Option<InodeEntry>)
    ensures
        inode_entries_of(*final(m)) == inode_entries_of(*old(m)).insert(k, v),
        r == (if inode_entries_of(*old(m)).dom().contains(k) {
            Some(inode_entries_of(*old(m))[k])
        } else {
            None::<InodeEntry>
        }),
{
    m.insert(k, v)
}

/// `DashMap::get`: a copy of the value under `k`, if present.
#[verifier::external_body]
fn entry_map_get(m: &DashMap<u64, InodeEntry>, k: u64) -> (r: Option<InodeEntry>)
    ensures
        r == (if inode_entries_of(*m).dom().contains(k) {
            Some(inode_entries_of(*m)[k])
        } else {
            None::<InodeEntry>
        }),
{
    m.get(&k).map(|r| r.value().duplicate())
}

/// `DashMap::remove`: takes the value under `k` out of the map.
#[verifier::external_body]
fn entry_map_remove(m: &mut DashMap<u64, InodeEntry>, k: u64) -> (r: Option<InodeEntry>)
    ensures
        inode_entries_of(*final(m)) == inode_entries_of(*old(m)).remove(k),
        r == (if inode_entries_of(*old(m)).dom().contains(k) {
            Some(inode_entries_of(*old(m))[k])
        } else {
            None::<InodeEntry>
        }),
{
    m.remove(&k).map(|(_, v)| v)
}

/// `DashMap::len`: the number of entries.
#[verifier::external_body]
fn entry_map_len(m: &DashMap<u64, InodeEntry>) -> (r: usize)
    ensures
        r == inode_entries_of(*m).len(),
{
    m.len()
}

/// `DashMap::iter`: every key once, in the map's own (hash) order.
#[verifier::external_body]
fn entry_map_keys(m: &DashMap<u64, InodeEntry>) -> (r: Vec<u64>)
    ensures
        r@.no_duplicates(),
        forall|k: u64| r@.contains(k) <==> inode_entries_of(*m).dom().contains(k),
{
    m.iter().map(|e| *e.key()).collect()
}

/// `DashMap::new`: an empty reverse index.
#[verifier::external_body]
fn new_index_map() -> (r: DashMap<u128, u64>)
    ensures
        item_index_of(r) == no_index(),
{
    DashMap::new()
}

/// `DashMap::insert` on the reverse index.
#[verifier::external_body]
fn index_insert(m: &mut DashMap<u128, u64>, k: u128, v: u64) -> (r: Option<u64>)
    ensures
        item_index_of(*final(m)) == item_index_of(*old(m)).insert(k, v),
        r == (if item_index_of(*old(m)).dom().contains(k) {
            Some(item_index_of(*old(m))[k])
        } else {
            None::<u64>
        }),
{
    m.insert(k, v)
}

/// `DashMap::get` on the reverse index.
#[verifier::external_body]
fn index_get(m: &DashMap<u128, u64>, k: u128) -> (r: Option<u64>)
    ensures
        r == (if item_index_of(*m).dom().contains(k) {
            Some(item_index_of(*m)[k])
        } else {
            None::<u64>
        }),
{
    m.get(&k).map(|r| *r.value())
}

/// `DashMap::remove` on the reverse index.
#[verifier::external_body]
fn index_remove(m: &mut DashMap<u128, u64>, k: u128) -> (r: Option<u64>)
    ensures
        item_index_of(*final(m)) == item_index_of(*old(m)).remove(k),
        r == (if item_index_of(*old(m)).dom().contains(k) {
            Some(item_index_of(*old(m))[k])
        } else {
            None::<u64>
        }),
{
    m.remove(&k).map(|(_, v)| v)
}

} // verus!
