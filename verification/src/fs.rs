//! Rules of the FUSE operations.
//!
//! Each operation of the filesystem is a method of [`LnxDriveFs`]: it checks
//! its arguments against the inode table, updates the table and tells the
//! caller what to reply and which side work (downloads, database updates,
//! cache removals) to start. Where an operation needs the result of side
//! work before it can go on (an inode number from the database), it is
//! split into a check and a commit.

use std::time::SystemTime;

use vstd::prelude::*;
use vstd::string::StringSliceAdditionalSpecFns;

use crate::config::FuseConfig;
use crate::dehydration::GIB;
use crate::inode::{is_child, is_named_child, keys_match, InodeTable};
use crate::inode_entry::{spec_attr, EntryAttr, InodeEntry, InodeNumber, ROOT_INO};
use crate::state::{FileKind, ItemState, UniqueId};

verus! {

/// Longest file name accepted, in bytes (POSIX `NAME_MAX`).
pub const NAME_MAX: usize = 255;

/// Open flag telling the kernel to keep data cached from earlier opens.
pub const FOPEN_KEEP_CACHE: u32 = 2;

/// Block size reported by `statfs`.
pub const BLOCK_SIZE: u32 = 4096;

/// Error numbers the operations reply with.
#[derive(Debug, Clone, Copy, PartialEq, Eq)]
pub enum Errno {
    /// `ENOENT`: no such entry.
    NotFound,
    /// `EIO`: the operation could not be carried out.
    Io,
    /// `EACCES`: permission denied.
    Access,
    /// `EEXIST`: the name is taken.
    Exists,
    /// `ENOTDIR`: not a directory.
    NotDir,
    /// `EISDIR`: is a directory.
    IsDir,
    /// `EINVAL`: invalid argument (a name that is not UTF-8).
    Invalid,
    /// `ERANGE`: the reply buffer is too small.
    Range,
    /// `ENAMETOOLONG`: name longer than `NAME_MAX` bytes.
    NameTooLong,
    /// `ENOTEMPTY`: directory not empty.
    NotEmpty,
    /// `ENODATA`: no such attribute.
    NoData,
    /// `ENOTSUP`: operation not supported.
    NotSupported,
}

/// Whether a name exceeds `NAME_MAX` bytes.
pub open spec fn name_too_long(name: &str) -> bool {
    name.len() > NAME_MAX
}

/// Whether `ino` is a directory of `m`.
pub open spec fn is_dir_entry(m: Map<u64, InodeEntry>, ino: u64) -> bool {
    m.dom().contains(ino) && m[ino].kind == FileKind::Directory
}

/// Whether a rename would put a file in place of a directory, or a directory
/// in place of a file: some entry named `name` in `parent` and some entry
/// named `newname` in `newparent` differ in kind.
pub open spec fn rename_kind_clash(m: Map<u64, InodeEntry>, parent: u64, name: Seq<char>, newparent: u64,
    newname: Seq<char>) -> bool {
    exists|s: u64, d: u64| is_named_child(m, s, parent, name) && is_named_child(m, d, newparent, newname)
        && (m[d].kind == FileKind::Directory) != (m[s].kind == FileKind::Directory)
}

/// Whether `m` holds a child of `parent` named `name`.
pub open spec fn has_named_child(m: Map<u64, InodeEntry>, parent: u64, name: Seq<char>) -> bool {
    exists|k: u64| is_named_child(m, k, parent, name)
}

/// `e` with one more kernel lookup (wrapping).
pub open spec fn with_lookup_bumped(e: InodeEntry) -> InodeEntry {
    InodeEntry { lookup_count: ((e.lookup_count + 1) % 0x1_0000_0000_0000_0000) as u64, ..e }
}

/// `e` with one more open handle (wrapping).
pub open spec fn with_handle_bumped(e: InodeEntry) -> InodeEntry {
    InodeEntry { open_handles: ((e.open_handles + 1) % 0x1_0000_0000_0000_0000) as u64, ..e }
}

/// One line of a directory listing.
#[derive(Debug, Clone)]
pub struct DirEntry {
    /// Inode of the entry.
    pub ino: u64,
    /// Offset of the next line.
    pub offset: i64,
    /// Regular file or directory.
    pub kind: FileKind,
    /// Name of the entry.
    pub name: String,
}

/// A listing line as plain values: inode, next offset, kind, name.
pub type Line = (u64, i64, FileKind, Seq<char>);

/// The plain values of a listing line.
pub open spec fn line_view(d: DirEntry) -> Line {
    (d.ino, d.offset, d.kind, d.name@)
}

/// Whether `full` is a complete listing of directory `dir` whose parent is
/// `parent`: `.`, `..`, then every child once (not `dir` itself, which the
/// root is a child of), each with offset position + 1.
pub open spec fn is_listing(m: Map<u64, InodeEntry>, dir: u64, parent: u64, full: Seq<Line>) -> bool {
    &&& full.len() >= 2
    &&& full[0] == (dir, 1i64, FileKind::Directory, "."@)
    &&& full[1] == (parent, 2i64, FileKind::Directory, ".."@)
    &&& forall|i: int| 0 <= i < full.len() ==> (#[trigger] full[i]).1 == i + 1
    &&& forall|i: int| 2 <= i < full.len() ==> {
        &&& is_child(m, (#[trigger] full[i]).0, dir)
        &&& full[i].0 != dir
        &&& full[i].2 == m[full[i].0].kind
        &&& full[i].3 == m[full[i].0].name@
    }
    &&& forall|k: u64| is_child(m, k, dir) && k != dir ==> exists|i: int| 2 <= i < full.len() && (#[trigger] full[i]).0 == k
    &&& forall|i: int, j: int| 2 <= i < j < full.len() ==> full[i].0 != full[j].0
}

/// Where a listing resumes for a requested offset.
pub open spec fn resume_at(offset: i64, len: int) -> int {
    if offset < 0 { 0 } else if offset > len { len } else { offset as int }
}

/// Filesystem statistics.
#[derive(Debug, Clone, Copy, PartialEq, Eq)]
pub struct StatFs {
    /// Total data blocks.
    pub blocks: u64,
    /// Free blocks.
    pub bfree: u64,
    /// Free blocks available to unprivileged users.
    pub bavail: u64,
    /// Total file nodes.
    pub files: u64,
    /// Free file nodes.
    pub ffree: u64,
    /// Block size.
    pub bsize: u32,
    /// Maximum name length.
    pub namelen: u32,
    /// Fragment size.
    pub frsize: u32,
}

/// The verified part of the filesystem: the inode table, the configuration
/// and the file handle counter.
pub struct LnxDriveFs {
    /// Live inode entries.
    pub inode_table: InodeTable,
    /// Filesystem configuration.
    pub config: FuseConfig,
    /// Next file handle to hand out.
    pub next_fh: u64,
}

impl LnxDriveFs {
    /// The table contents.
    pub open spec fn entries(&self) -> Map<u64, InodeEntry> {
        self.inode_table@
    }

    /// Whether `a` and `b` agree on everything but the inode table.
    pub open spec fn same_rest(a: &LnxDriveFs, b: &LnxDriveFs) -> bool {
        a.config == b.config && a.next_fh == b.next_fh
    }

    /// Whether `b` is `a` unchanged.
    pub open spec fn unchanged(a: &LnxDriveFs, b: &LnxDriveFs) -> bool {
        &&& Self::same_rest(a, b)
        &&& a.inode_table@ == b.inode_table@
        &&& a.inode_table.item_index() == b.inode_table.item_index()
    }

    /// A filesystem with an empty table whose first file handle is 1.
    pub fn new(config: FuseConfig) -> (r: LnxDriveFs)
        ensures
            r.entries() == Map::<u64, InodeEntry>::empty(),
            r.inode_table.item_index() == Map::<u128, u64>::empty(),
            r.config == config,
            r.next_fh == 1,
    {
        LnxDriveFs { inode_table: InodeTable::new(), config, next_fh: 1 }
    }

    /// The inode table.
    pub fn inode_table(&self) -> (r: &InodeTable)
        ensures
            r == &self.inode_table,
    {
        &self.inode_table
    }

    /// The configuration.
    pub fn config(&self) -> (r: &FuseConfig)
        ensures
            r == &self.config,
    {
        &self.config
    }

    /// Hands out a new file handle (the counter wraps like an atomic one).
    pub fn alloc_fh(&mut self) -> (r: u64)
        ensures
            r == old(self).next_fh,
            final(self).next_fh == (old(self).next_fh + 1) % 0x1_0000_0000_0000_0000,
            final(self).inode_table@ == old(self).inode_table@,
            final(self).inode_table.item_index() == old(self).inode_table.item_index(),
            final(self).config == old(self).config,
    {
        let fh = self.next_fh;
        self.next_fh = self.next_fh.wrapping_add(1);
        fh
    }

    /// The entry under `ino`, if any.
    pub fn get_entry(&self, ino: u64) -> (r: Option<InodeEntry>)
        ensures
            r == (if self.entries().dom().contains(ino) { Some(self.entries()[ino]) } else { None::<InodeEntry> }),
    {
        self.inode_table.get(ino)
    }

    /// A child of `parent` named `name`, if any.
    pub fn lookup_entry(&self, parent: u64, name: &str) -> (r: Option<InodeEntry>)
        ensures
            r matches Some(e) ==> is_named_child(self.entries(), e.ino.0, parent, name@) && e == self.entries()[e.ino.0],
            r is None ==> !has_named_child(self.entries(), parent, name@),
    {
        self.inode_table.lookup(parent, name)
    }

    /// The children of `parent`, leaving out an entry that is its own parent (the root).
    pub fn get_children(&self, parent: u64) -> (r: Vec<InodeEntry>)
        ensures
            forall|i: int| 0 <= i < r@.len() ==> {
                &&& is_child(self.entries(), #[trigger] r@[i].ino.0, parent)
                &&& r@[i].ino.0 != r@[i].parent_ino.0
                &&& r@[i] == self.entries()[r@[i].ino.0]
            },
            forall|k: u64| is_child(self.entries(), k, parent) && k != parent ==>
                exists|i: int| 0 <= i < r@.len() && #[trigger] r@[i].ino.0 == k,
            forall|i: int, j: int| 0 <= i < j < r@.len() ==> r@[i].ino.0 != r@[j].ino.0,
            r@.len() <= self.entries().len(),
    {
        let all = self.inode_table.children(parent);
        let mut out: Vec<InodeEntry> = Vec::new();
        let mut i: usize = 0;
        while i < all.len()
            invariant
                i <= all@.len(),
                forall|a: int| 0 <= a < all@.len() ==> {
                    &&& is_child(self.entries(), #[trigger] all@[a].ino.0, parent)
                    &&& all@[a] == self.entries()[all@[a].ino.0]
                },
                forall|k: u64| is_child(self.entries(), k, parent) ==>
                    exists|a: int| 0 <= a < all@.len() && #[trigger] all@[a].ino.0 == k,
                forall|a: int, c: int| 0 <= a < c < all@.len() ==> all@[a].ino.0 != all@[c].ino.0,
                forall|a: int| 0 <= a < out@.len() ==> {
                    &&& is_child(self.entries(), #[trigger] out@[a].ino.0, parent)
                    &&& out@[a].ino.0 != out@[a].parent_ino.0
                    &&& out@[a] == self.entries()[out@[a].ino.0]
                    &&& exists|b: int| 0 <= b < i && all@[b].ino.0 == out@[a].ino.0
                },
                forall|b: int| 0 <= b < i && (#[trigger] all@[b]).ino.0 != parent ==>
                    exists|a: int| 0 <= a < out@.len() && #[trigger] out@[a].ino.0 == all@[b].ino.0,
                forall|a: int, c: int| 0 <= a < c < out@.len() ==> out@[a].ino.0 != out@[c].ino.0,
                out@.len() <= i,
                all@.len() <= self.entries().len(),
            decreases all@.len() - i,
        {
            let ghost old_out = out@;
            if all[i].ino.0 != all[i].parent_ino.0 {
                proof {
                    assert forall|a: int| 0 <= a < out@.len() implies out@[a].ino.0 != all@[i as int].ino.0 by {
                        let b = choose|b: int| 0 <= b < i && all@[b].ino.0 == out@[a].ino.0;
                        assert(all@[b].ino.0 != all@[i as int].ino.0);
                    }
                }
                out.push(all[i].duplicate());
            }
            proof {
                assert forall|b: int| 0 <= b < i + 1 && (#[trigger] all@[b]).ino.0 != parent implies
                    exists|a: int| 0 <= a < out@.len() && #[trigger] out@[a].ino.0 == all@[b].ino.0 by {
                    if b < i {
                        let a = choose|a: int| 0 <= a < old_out.len() && #[trigger] old_out[a].ino.0 == all@[b].ino.0;
                        assert(out@[a] == old_out[a]);
                    } else {
                        assert(all@[b].parent_ino.0 == parent);
                        assert(out@[out@.len() - 1].ino.0 == all@[b].ino.0);
                    }
                }
            }
            i = i + 1;
        }
        proof {
            assert forall|k: u64| is_child(self.entries(), k, parent) && k != parent implies
                exists|a: int| 0 <= a < out@.len() && #[trigger] out@[a].ino.0 == k by {
                let b = choose|b: int| 0 <= b < all@.len() && #[trigger] all@[b].ino.0 == k;
                assert(all@[b].ino.0 != parent);
            }
        }
        out
    }

    /// Inserts an entry into the table.
    pub fn insert_entry(&mut self, entry: InodeEntry)
        ensures
            final(self).entries() == old(self).entries().insert(entry.ino.0, entry),
            final(self).inode_table.item_index() == old(self).inode_table.item_index().insert(entry.item_id.0, entry.ino.0),
            Self::same_rest(old(self), final(self)),
    {
        self.inode_table.insert(entry);
    }

    /// `lookup`: finds `name` in `parent` and counts one more kernel reference to it.
    pub fn lookup(&mut self, parent: u64, name: &str) -> (r: Result<InodeEntry, Errno>)
        ensures
            name_too_long(name) ==> r == Err::<InodeEntry, Errno>(Errno::NameTooLong) && Self::unchanged(old(self), final(self)),
            !name_too_long(name) && !has_named_child(old(self).entries(), parent, name@) ==>
                r == Err::<InodeEntry, Errno>(Errno::NotFound) && Self::unchanged(old(self), final(self)),
            !name_too_long(name) && has_named_child(old(self).entries(), parent, name@) ==> r is Ok,
            r matches Ok(e) ==> {
                &&& is_named_child(old(self).entries(), e.ino.0, parent, name@)
                &&& e == with_lookup_bumped(old(self).entries()[e.ino.0])
                &&& final(self).entries() == old(self).entries().insert(e.ino.0, e)
                &&& final(self).inode_table.item_index() == old(self).inode_table.item_index()
                &&& Self::same_rest(old(self), final(self))
            },
    {
        if name.len() > NAME_MAX {
            return Err(Errno::NameTooLong);
        }
        match self.inode_table.lookup(parent, name) {
            None => Err(Errno::NotFound),
            Some(mut e) => {
                e.increment_lookup();
                let copy = e.duplicate();
                self.inode_table.set_entry(e);
                Ok(copy)
            },
        }
    }

    /// `getattr`: the attributes of `ino`.
    pub fn getattr(&self, ino: u64) -> (r: Result<EntryAttr, Errno>)
        ensures
            !self.entries().dom().contains(ino) ==> r == Err::<EntryAttr, Errno>(Errno::NotFound),
            self.entries().dom().contains(ino) ==> r == Ok::<EntryAttr, Errno>(spec_attr(self.entries()[ino])),
    {
        match self.inode_table.get(ino) {
            Some(e) => Ok(e.to_file_attr()),
            None => Err(Errno::NotFound),
        }
    }

    /// `setattr`: changes are not applied yet; replies with the current attributes.
    pub fn setattr(&self, ino: u64, mode: Option<u32>, size: Option<u64>) -> (r: Result<EntryAttr, Errno>)
        ensures
            !self.entries().dom().contains(ino) ==> r == Err::<EntryAttr, Errno>(Errno::NotFound),
            self.entries().dom().contains(ino) ==> r == Ok::<EntryAttr, Errno>(spec_attr(self.entries()[ino])),
    {
        self.getattr(ino)
    }

    /// `readdir`: the lines of the listing of `ino` from position `offset` on
    /// (the caller sends them until the reply buffer is full).
    pub fn readdir(&self, ino: u64, offset: i64) -> (r: Result<Vec<DirEntry>, Errno>)
        requires
            self.entries().len() < 0x7fff_ffff_ffff_fff0,
        ensures
            !self.entries().dom().contains(ino) ==> r == Err::<Vec<DirEntry>, Errno>(Errno::NotFound),
            self.entries().dom().contains(ino) && self.entries()[ino].kind != FileKind::Directory ==>
                r == Err::<Vec<DirEntry>, Errno>(Errno::NotDir),
            self.entries().dom().contains(ino) && self.entries()[ino].kind == FileKind::Directory ==> {
                &&& r is Ok
                &&& exists|full: Seq<Line>| {
                    &&& is_listing(self.entries(), ino,
                        if ino == ROOT_INO { ROOT_INO } else { self.entries()[ino].parent_ino.0 }, full)
                    &&& r->Ok_0@.map_values(|d: DirEntry| line_view(d)) == full.subrange(resume_at(offset, full.len() as int), full.len() as int)
                }
            },
    {
        let entry = match self.inode_table.get(ino) {
            Some(e) => e,
            None => return Err(Errno::NotFound),
        };
        if !entry.kind.is_dir() {
            return Err(Errno::NotDir);
        }
        let parent_ino = if ino == ROOT_INO { ROOT_INO } else { entry.parent_ino.0 };
        let children = self.get_children(ino);
        let ghost m = self.entries();
        let ghost full: Seq<Line> = Seq::new((children@.len() + 2) as nat, |i: int|
            if i == 0 {
                (ino, 1i64, FileKind::Directory, "."@)
            } else if i == 1 {
                (parent_ino, 2i64, FileKind::Directory, ".."@)
            } else {
                (children@[i - 2].ino.0, (i + 1) as i64, children@[i - 2].kind, children@[i - 2].name@)
            });
        let mut out: Vec<DirEntry> = Vec::new();
        let start: i64 = if offset < 0 { 0 } else { offset };
        let total: u64 = children.len() as u64 + 2;
        let mut pos: u64 = 0;
        while pos < total
            invariant
                total == children@.len() + 2,
                total <= 0x7fff_ffff_ffff_fff2,
                pos <= total,
                start >= 0,
                start == (if offset < 0 { 0 } else { offset }),
                out@.len() == (if pos <= start { 0 } else { pos - start }),
                forall|j: int| 0 <= j < out@.len() ==> line_view(#[trigger] out@[j]) == full[start + j],
                full.len() == total,
                full == Seq::new((children@.len() + 2) as nat, |i: int|
                    if i == 0 {
                        (ino, 1i64, FileKind::Directory, "."@)
                    } else if i == 1 {
                        (parent_ino, 2i64, FileKind::Directory, ".."@)
                    } else {
                        (children@[i - 2].ino.0, (i + 1) as i64, children@[i - 2].kind, children@[i - 2].name@)
                    }),
            decreases total - pos,
        {
            if start <= pos as i64 {
                let line = if pos == 0 {
                    let l = DirEntry { ino, offset: 1, kind: FileKind::Directory, name: crate::text::to_string(".") };
                    assert(full[0] == (ino, 1i64, FileKind::Directory, "."@));
                    assert(line_view(l) == full[0]);
                    l
                } else if pos == 1 {
                    let l = DirEntry { ino: parent_ino, offset: 2, kind: FileKind::Directory, name: crate::text::to_string("..") };
                    assert(full[1] == (parent_ino, 2i64, FileKind::Directory, ".."@));
                    assert(line_view(l) == full[1]);
                    l
                } else {
                    let c = &children[(pos - 2) as usize];
                    let l = DirEntry { ino: c.ino.0, offset: (pos + 1) as i64, kind: c.kind, name: c.name.clone() };
                    assert(full[pos as int] == (children@[pos - 2].ino.0, (pos + 1) as i64, children@[pos - 2].kind, children@[pos - 2].name@));
                    assert(line_view(l) == full[pos as int]);
                    l
                };
                assert(line_view(line) == full[pos as int]);
                let ghost before = out@;
                out.push(line);
                assert forall|j: int| 0 <= j < out@.len() implies line_view(#[trigger] out@[j]) == full[start + j] by {
                    if j < before.len() {
                        assert(out@[j] == before[j]);
                    }
                }
            }
            pos = pos + 1;
        }
        proof {
            assert(is_listing(m, ino, parent_ino, full)) by {
                assert forall|k: u64| is_child(m, k, ino) && k != ino implies
                    exists|i: int| 2 <= i < full.len() && (#[trigger] full[i]).0 == k by {
                    let a = choose|a: int| 0 <= a < children@.len() && #[trigger] children@[a].ino.0 == k;
                    assert(full[a + 2].0 == k);
                }
                assert forall|i: int, j: int| 2 <= i < j < full.len() implies full[i].0 != full[j].0 by {
                    assert(children@[i - 2].ino.0 != children@[j - 2].ino.0);
                }
            }
            let view = out@.map_values(|d: DirEntry| line_view(d));
            assert(view =~= full.subrange(resume_at(offset, full.len() as int), full.len() as int));
        }
        Ok(out)
    }
}

/// Side work an `open` of a cloud-only file asks for: download this item.
#[derive(Debug, Clone, PartialEq, Eq)]
pub struct HydrationStart {
    /// Inode of the file.
    pub ino: u64,
    /// Identifier of the item.
    pub item_id: UniqueId,
    /// OneDrive id of the item.
    pub remote_id: String,
    /// Size of the file in bytes.
    pub total_size: u64,
}

/// Reply to an `open`.
#[derive(Debug, Clone, PartialEq, Eq)]
pub struct OpenReply {
    /// File handle.
    pub fh: u64,
    /// Open flags (`FOPEN_KEEP_CACHE` for locally available content).
    pub flags: u32,
    /// Download to start, for a cloud-only file when a hydration manager runs.
    pub hydrate: Option<HydrationStart>,
    /// Item whose last access time is to be updated.
    pub touched: UniqueId,
}

/// The download an open or read of `e` starts, if `e` has a remote id.
pub open spec fn hydration_start_of(e: InodeEntry) -> Option<HydrationStart> {
    match e.remote_id {
        Some(rid) => Some(HydrationStart { ino: e.ino.0, item_id: e.item_id, remote_id: rid, total_size: e.size }),
        None => None,
    }
}

/// How a `read` obtains its data.
#[derive(Debug, Clone, PartialEq, Eq)]
pub enum ReadPlan {
    /// Read the range from the content cache of this remote id.
    Cache(String),
    /// Start this download first (when given), wait until the range is
    /// available, then read from the cache of the remote id (`EIO` without one).
    AwaitHydration(Option<HydrationStart>, Option<String>),
}

/// What a `write` to a local file does.
#[derive(Debug, Clone, PartialEq, Eq)]
pub struct WritePlan {
    /// Remote id whose cached content receives the data.
    pub remote_id: String,
    /// Identifier of the item.
    pub item_id: UniqueId,
    /// Whether the item's state must become `Modified` afterwards.
    pub mark_modified: bool,
}

/// What an `unlink` removes.
#[derive(Debug, Clone, PartialEq, Eq)]
pub struct UnlinkPlan {
    /// Inode to drop from the table.
    pub ino: u64,
    /// Item to mark `Deleted`.
    pub item_id: UniqueId,
    /// Cached content to remove, if any.
    pub remote_id: Option<String>,
}

/// `e` moved to `parent`/`name`: local changes turn `Hydrated` and `Pinned`
/// into `Modified`, the change time becomes `now`, the counters restart at zero.
pub open spec fn renamed(e: InodeEntry, parent: u64, name: Seq<char>, now: SystemTime, new_name: String) -> InodeEntry {
    InodeEntry {
        parent_ino: InodeNumber(parent),
        name: new_name,
        ctime: now,
        lookup_count: 0,
        open_handles: 0,
        state: if e.state is Hydrated || e.state is Pinned { ItemState::Modified } else { e.state },
        ..e
    }
}

/// `e` after `write` of a new file or directory entry: which fields a new entry has.
pub open spec fn is_new_entry(e: InodeEntry, ino: u64, item_id: UniqueId, parent: u64, name: Seq<char>,
    kind: FileKind, perm: u16, now: SystemTime, nlink: u32, lookups: u64, handles: u64) -> bool {
    &&& e.ino.0 == ino
    &&& e.item_id == item_id
    &&& e.remote_id is None
    &&& e.parent_ino.0 == parent
    &&& e.name@ == name
    &&& e.kind == kind
    &&& e.size == 0
    &&& e.perm == perm
    &&& e.mtime == now && e.ctime == now && e.atime == now
    &&& e.nlink == nlink
    &&& e.lookup_count == lookups
    &&& e.open_handles == handles
    &&& e.state == ItemState::Modified
}

/// Why a new entry may not be made in `parent` under `name`, if it may not.
pub open spec fn creation_refusal(m: Map<u64, InodeEntry>, parent: u64, name: &str) -> Option<Errno> {
    if name_too_long(name) {
        Some(Errno::NameTooLong)
    } else if !m.dom().contains(parent) {
        Some(Errno::NotFound)
    } else if m[parent].kind != FileKind::Directory {
        Some(Errno::NotDir)
    } else if has_named_child(m, parent, name@) {
        Some(Errno::Exists)
    } else {
        None
    }
}

/// Whether `name` is in the namespace this filesystem reserves for its attributes.
pub open spec fn is_own_xattr(name: Seq<char>) -> bool {
    crate::text::is_prefix("user.lnxdrive."@, name)
}

/// Reply to an extended attribute read.
#[derive(Debug, Clone, PartialEq, Eq)]
pub enum XattrReply {
    /// The caller asked for the size (buffer size 0): this many bytes.
    Size(u32),
    /// The value fits: send it.
    Data,
}

impl LnxDriveFs {
    /// `statfs`: capacity from the configured cache size, usage from the cache
    /// (`None` when it could not be measured, counted as 0).
    pub fn statfs(&self, used_bytes: Option<u64>) -> (r: StatFs)
        ensures
            r.blocks == self.config.cache_max_size_gb * GIB / (BLOCK_SIZE as int),
            r.bfree == (if r.blocks >= (match used_bytes { Some(u) => u as int, None => 0 }) / (BLOCK_SIZE as int) {
                r.blocks - (match used_bytes { Some(u) => u as int, None => 0 }) / (BLOCK_SIZE as int)
            } else { 0 }),
            r.bavail == r.bfree,
            r.files == self.entries().len(),
            r.ffree == u64::MAX / 2,
            r.bsize == BLOCK_SIZE,
            r.namelen == 255,
            r.frsize == BLOCK_SIZE,
    {
        let gb = self.config.cache_max_size_gb as u64;
        assert(gb * GIB <= u64::MAX) by (nonlinear_arith)
            requires gb <= u32::MAX;
        let total_bytes = gb * GIB;
        let total_blocks = total_bytes / (BLOCK_SIZE as u64);
        let used = match used_bytes {
            Some(u) => u,
            None => 0,
        };
        let used_blocks = used / (BLOCK_SIZE as u64);
        let free_blocks = total_blocks.saturating_sub(used_blocks);
        let files = self.inode_table.len() as u64;
        StatFs {
            blocks: total_blocks,
            bfree: free_blocks,
            bavail: free_blocks,
            files,
            ffree: u64::MAX / 2,
            bsize: BLOCK_SIZE,
            namelen: 255,
            frsize: BLOCK_SIZE,
        }
    }

    /// `forget`: the kernel drops `nlookup` references to `ino`. Returns the
    /// new count, or `None` when the inode is unknown.
    pub fn forget(&mut self, ino: u64, nlookup: u64) -> (r: Option<u64>)
        requires
            old(self).entries().dom().contains(ino) ==> nlookup <= old(self).entries()[ino].lookup_count,
        ensures
            !old(self).entries().dom().contains(ino) ==> r is None && Self::unchanged(old(self), final(self)),
            old(self).entries().dom().contains(ino) ==> {
                let e = old(self).entries()[ino];
                &&& r == Some((e.lookup_count - nlookup) as u64)
                &&& final(self).entries() == old(self).entries().insert(ino,
                    InodeEntry { lookup_count: (e.lookup_count - nlookup) as u64, ..e })
                &&& final(self).inode_table.item_index() == old(self).inode_table.item_index()
                &&& Self::same_rest(old(self), final(self))
            },
    {
        match self.inode_table.get(ino) {
            Some(mut e) => {
                let n = e.decrement_lookup_by(nlookup);
                self.inode_table.set_entry(e);
                Some(n)
            },
            None => None,
        }
    }

    /// `opendir`: a file handle for directory `ino`, with `FOPEN_KEEP_CACHE`.
    pub fn opendir(&mut self, ino: u64) -> (r: Result<(u64, u32), Errno>)
        ensures
            !old(self).entries().dom().contains(ino) ==> r == Err::<(u64, u32), Errno>(Errno::NotFound) && Self::unchanged(old(self), final(self)),
            old(self).entries().dom().contains(ino) && old(self).entries()[ino].kind != FileKind::Directory ==>
                r == Err::<(u64, u32), Errno>(Errno::NotDir) && Self::unchanged(old(self), final(self)),
            old(self).entries().dom().contains(ino) && old(self).entries()[ino].kind == FileKind::Directory ==> {
                &&& r == Ok::<(u64, u32), Errno>((old(self).next_fh, FOPEN_KEEP_CACHE))
                &&& final(self).next_fh == (old(self).next_fh + 1) % 0x1_0000_0000_0000_0000
                &&& final(self).entries() == old(self).entries()
                &&& final(self).inode_table.item_index() == old(self).inode_table.item_index()
                &&& final(self).config == old(self).config
            },
    {
        match self.inode_table.get(ino) {
            None => Err(Errno::NotFound),
            Some(e) => {
                if !e.kind.is_dir() {
                    return Err(Errno::NotDir);
                }
                let fh = self.alloc_fh();
                Ok((fh, FOPEN_KEEP_CACHE))
            },
        }
    }

    /// `open`: counts one more open handle on file `ino`, hands out a file
    /// handle and says whether to download it; `has_hydrator` tells whether a
    /// hydration manager runs.
    pub fn open(&mut self, ino: u64, has_hydrator: bool) -> (r: Result<OpenReply, Errno>)
        ensures
            !old(self).entries().dom().contains(ino) ==> r == Err::<OpenReply, Errno>(Errno::NotFound) && Self::unchanged(old(self), final(self)),
            old(self).entries().dom().contains(ino) && old(self).entries()[ino].kind == FileKind::Directory ==>
                r == Err::<OpenReply, Errno>(Errno::IsDir) && Self::unchanged(old(self), final(self)),
            old(self).entries().dom().contains(ino) && old(self).entries()[ino].kind != FileKind::Directory ==> {
                let e = old(self).entries()[ino];
                &&& r matches Ok(rep) && rep == (OpenReply {
                    fh: old(self).next_fh,
                    flags: if e.state.spec_is_local() { FOPEN_KEEP_CACHE } else { 0 },
                    hydrate: if e.state is Online && has_hydrator { hydration_start_of(e) } else { None },
                    touched: e.item_id,
                })
                &&& final(self).entries() == old(self).entries().insert(ino, with_handle_bumped(e))
                &&& final(self).inode_table.item_index() == old(self).inode_table.item_index()
                &&& final(self).next_fh == (old(self).next_fh + 1) % 0x1_0000_0000_0000_0000
                &&& final(self).config == old(self).config
            },
    {
        let mut e = match self.inode_table.get(ino) {
            None => return Err(Errno::NotFound),
            Some(e) => e,
        };
        if e.kind.is_dir() {
            return Err(Errno::IsDir);
        }
        e.increment_open_handles();
        let flags = if e.state.is_local() { FOPEN_KEEP_CACHE } else { 0 };
        let online = match e.state {
            ItemState::Online => true,
            _ => false,
        };
        let hydrate = if online && has_hydrator {
            match &e.remote_id {
                Some(rid) => Some(HydrationStart { ino, item_id: e.item_id, remote_id: rid.clone(), total_size: e.size }),
                None => None,
            }
        } else {
            None
        };
        let touched = e.item_id;
        self.inode_table.set_entry(e);
        let fh = self.alloc_fh();
        Ok(OpenReply { fh, flags, hydrate, touched })
    }

    /// `read`: how the data of `ino` is obtained. `has_hydrator` tells whether
    /// a hydration manager runs and `is_hydrating` whether it is downloading `ino`.
    pub fn read(&self, ino: u64, has_hydrator: bool, is_hydrating: bool) -> (r: Result<ReadPlan, Errno>)
        ensures
            !self.entries().dom().contains(ino) ==> r == Err::<ReadPlan, Errno>(Errno::NotFound),
            self.entries().dom().contains(ino) ==> {
                let e = self.entries()[ino];
                &&& (e.state is Online || e.state is Hydrating) ==> {
                    &&& !has_hydrator ==> r == Err::<ReadPlan, Errno>(Errno::Io)
                    &&& has_hydrator && is_hydrating ==> r == Ok::<ReadPlan, Errno>(ReadPlan::AwaitHydration(None, e.remote_id))
                    &&& has_hydrator && !is_hydrating && e.remote_id is None ==> r == Err::<ReadPlan, Errno>(Errno::Io)
                    &&& has_hydrator && !is_hydrating && e.remote_id is Some ==>
                        r == Ok::<ReadPlan, Errno>(ReadPlan::AwaitHydration(hydration_start_of(e), e.remote_id))
                }
                &&& e.state.spec_is_local() ==> match e.remote_id {
                    Some(rid) => r == Ok::<ReadPlan, Errno>(ReadPlan::Cache(rid)),
                    None => r == Err::<ReadPlan, Errno>(Errno::Io),
                }
                &&& !(e.state is Online || e.state is Hydrating || e.state.spec_is_local()) ==> r == Err::<ReadPlan, Errno>(Errno::Io)
            },
    {
        let e = match self.inode_table.get(ino) {
            None => return Err(Errno::NotFound),
            Some(e) => e,
        };
        match e.state {
            ItemState::Online | ItemState::Hydrating => {
                if !has_hydrator {
                    return Err(Errno::Io);
                }
                if is_hydrating {
                    return Ok(ReadPlan::AwaitHydration(None, e.remote_id));
                }
                match e.remote_id {
                    Some(rid) => {
                        let start = HydrationStart { ino: e.ino.0, item_id: e.item_id, remote_id: rid.clone(), total_size: e.size };
                        Ok(ReadPlan::AwaitHydration(Some(start), Some(rid)))
                    },
                    None => Err(Errno::Io),
                }
            },
            ItemState::Hydrated | ItemState::Pinned | ItemState::Modified => {
                match e.remote_id {
                    Some(rid) => Ok(ReadPlan::Cache(rid)),
                    None => Err(Errno::Io),
                }
            },
            _ => Err(Errno::Io),
        }
    }

    /// `write`: only locally available files with a remote id accept data; the
    /// first write to an unmodified file marks it `Modified`.
    pub fn write(&self, ino: u64) -> (r: Result<WritePlan, Errno>)
        ensures
            !self.entries().dom().contains(ino) ==> r == Err::<WritePlan, Errno>(Errno::NotFound),
            self.entries().dom().contains(ino) ==> {
                let e = self.entries()[ino];
                &&& (e.state.spec_is_local() && e.remote_id is Some) ==>
                    r == Ok::<WritePlan, Errno>(WritePlan {
                        remote_id: e.remote_id->Some_0,
                        item_id: e.item_id,
                        mark_modified: !(e.state is Modified),
                    })
                &&& !(e.state.spec_is_local() && e.remote_id is Some) ==> r == Err::<WritePlan, Errno>(Errno::Io)
            },
    {
        let e = match self.inode_table.get(ino) {
            None => return Err(Errno::NotFound),
            Some(e) => e,
        };
        if !e.state.is_local() {
            return Err(Errno::Io);
        }
        let mark_modified = match e.state {
            ItemState::Modified => false,
            _ => true,
        };
        match e.remote_id {
            Some(rid) => Ok(WritePlan { remote_id: rid, item_id: e.item_id, mark_modified }),
            None => Err(Errno::Io),
        }
    }

    /// `release`: one open handle of `ino` is closed. Returns whether the
    /// dehydration manager is to be told (last handle of a `Hydrated` file);
    /// `None` when the inode is unknown.
    pub fn release(&mut self, ino: u64) -> (r: Option<bool>)
        requires
            old(self).entries().dom().contains(ino) ==> old(self).entries()[ino].open_handles >= 1,
        ensures
            !old(self).entries().dom().contains(ino) ==> r is None && Self::unchanged(old(self), final(self)),
            old(self).entries().dom().contains(ino) ==> {
                let e = old(self).entries()[ino];
                &&& r == Some(e.open_handles == 1 && e.state is Hydrated)
                &&& final(self).entries() == old(self).entries().insert(ino,
                    InodeEntry { open_handles: (e.open_handles - 1) as u64, ..e })
                &&& final(self).inode_table.item_index() == old(self).inode_table.item_index()
                &&& Self::same_rest(old(self), final(self))
            },
    {
        match self.inode_table.get(ino) {
            None => None,
            Some(mut e) => {
                let n = e.decrement_open_handles();
                let notify = n == 0 && e.state.can_dehydrate();
                self.inode_table.set_entry(e);
                Some(notify)
            },
        }
    }

    /// Checks that a new file or directory may be made in `parent` under `name`.
    pub fn check_creation(&self, parent: u64, name: &str) -> (r: Result<(), Errno>)
        ensures
            match creation_refusal(self.entries(), parent, name) {
                Some(err) => r == Err::<(), Errno>(err),
                None => r is Ok,
            },
    {
        if name.len() > NAME_MAX {
            return Err(Errno::NameTooLong);
        }
        match self.inode_table.get(parent) {
            None => Err(Errno::NotFound),
            Some(p) => {
                if !p.kind.is_dir() {
                    return Err(Errno::NotDir);
                }
                match self.inode_table.lookup(parent, name) {
                    Some(_) => Err(Errno::Exists),
                    None => Ok(()),
                }
            },
        }
    }

    /// `mkdir`, once the new inode number is known: adds the directory with
    /// permissions `(mode & !umask) | 0o111`, state `Modified`, two links and
    /// one kernel reference, and returns its attributes.
    pub fn mkdir_commit(&mut self, parent: u64, name: &str, mode: u32, umask: u32, new_ino: u64,
        item_id: UniqueId, now: SystemTime) -> (r: EntryAttr)
        ensures
            final(self).entries().dom().contains(new_ino),
            is_new_entry(final(self).entries()[new_ino], new_ino, item_id, parent, name@, FileKind::Directory,
                ((mode & !umask) | 0o111) as u16, now, 2, 1, 0),
            final(self).entries() == old(self).entries().insert(new_ino, final(self).entries()[new_ino]),
            final(self).inode_table.item_index() == old(self).inode_table.item_index().insert(item_id.0, new_ino),
            r == spec_attr(final(self).entries()[new_ino]),
            Self::same_rest(old(self), final(self)),
    {
        let perm = ((mode & !umask) | 0o111) as u16;
        let mut e = InodeEntry::new(InodeNumber(new_ino), item_id, None, InodeNumber(parent),
            crate::text::to_string(name), FileKind::Directory, 0, perm, now, now, now, 2, ItemState::Modified);
        let attr = e.to_file_attr();
        e.increment_lookup();
        self.inode_table.insert(e);
        attr
    }

    /// `create`, once the new inode number is known: adds the regular file
    /// with permissions `(mode & !umask) & 0o7777`, state `Modified`, one
    /// kernel reference and one open handle; returns its attributes and a file handle.
    pub fn create_commit(&mut self, parent: u64, name: &str, mode: u32, umask: u32, new_ino: u64,
        item_id: UniqueId, now: SystemTime) -> (r: (EntryAttr, u64))
        ensures
            final(self).entries().dom().contains(new_ino),
            is_new_entry(final(self).entries()[new_ino], new_ino, item_id, parent, name@, FileKind::RegularFile,
                (((mode & !umask) as u16) & 0o7777u16) as u16, now, 1, 1, 1),
            final(self).entries() == old(self).entries().insert(new_ino, final(self).entries()[new_ino]),
            final(self).inode_table.item_index() == old(self).inode_table.item_index().insert(item_id.0, new_ino),
            r.0 == spec_attr(final(self).entries()[new_ino]),
            r.1 == old(self).next_fh,
            final(self).next_fh == (old(self).next_fh + 1) % 0x1_0000_0000_0000_0000,
            final(self).config == old(self).config,
    {
        let perm = ((mode & !umask) as u16) & 0o7777;
        let mut e = InodeEntry::new(InodeNumber(new_ino), item_id, None, InodeNumber(parent),
            crate::text::to_string(name), FileKind::RegularFile, 0, perm, now, now, now, 1, ItemState::Modified);
        let attr = e.to_file_attr();
        e.increment_lookup();
        e.increment_open_handles();
        self.inode_table.insert(e);
        let fh = self.alloc_fh();
        (attr, fh)
    }

    /// `rmdir`: removes the empty directory `name` of `parent` and returns the
    /// item to mark `Deleted`.
    pub fn rmdir(&mut self, parent: u64, name: &str) -> (r: Result<UniqueId, Errno>)
        ensures
            name_too_long(name) ==> r == Err::<UniqueId, Errno>(Errno::NameTooLong),
            !name_too_long(name) && !has_named_child(old(self).entries(), parent, name@) ==> r == Err::<UniqueId, Errno>(Errno::NotFound),
            r is Err ==> Self::unchanged(old(self), final(self)),
            !name_too_long(name) && has_named_child(old(self).entries(), parent, name@) ==>
                r is Ok || r == Err::<UniqueId, Errno>(Errno::NotDir) || r == Err::<UniqueId, Errno>(Errno::NotEmpty),
            r == Err::<UniqueId, Errno>(Errno::NotDir) ==> exists|k: u64| is_named_child(old(self).entries(), k, parent, name@)
                && old(self).entries()[k].kind != FileKind::Directory,
            r == Err::<UniqueId, Errno>(Errno::NotEmpty) ==> exists|k: u64| is_named_child(old(self).entries(), k, parent, name@)
                && old(self).entries()[k].kind == FileKind::Directory
                && exists|c: u64| is_child(old(self).entries(), c, k),
            r matches Ok(id) ==> exists|k: u64| {
                &&& is_named_child(old(self).entries(), k, parent, name@)
                &&& old(self).entries()[k].kind == FileKind::Directory
                &&& forall|c: u64| !is_child(old(self).entries(), c, k)
                &&& id == old(self).entries()[k].item_id
                &&& final(self).entries() == old(self).entries().remove(k)
                &&& final(self).inode_table.item_index() == old(self).inode_table.item_index().remove(id.0)
            },
            Self::same_rest(old(self), final(self)),
    {
        if name.len() > NAME_MAX {
            return Err(Errno::NameTooLong);
        }
        let ghost m = self.entries();
        let child = match self.inode_table.lookup(parent, name) {
            None => return Err(Errno::NotFound),
            Some(c) => c,
        };
        assert(is_named_child(m, child.ino.0, parent, name@));
        if !child.kind.is_dir() {
            return Err(Errno::NotDir);
        }
        let k = child.ino.0;
        let kids = self.inode_table.children(k);
        if kids.len() > 0 {
            proof { assert(is_child(self.entries(), kids@[0].ino.0, k)); }
            return Err(Errno::NotEmpty);
        }
        proof {
            assert forall|c: u64| !is_child(self.entries(), c, k) by {
                if is_child(self.entries(), c, k) {
                    let a = choose|a: int| 0 <= a < kids@.len() && #[trigger] kids@[a].ino.0 == c;
                }
            }
        }
        let _ = self.inode_table.remove(k);
        assert(is_named_child(m, k, parent, name@) && m[k].kind == FileKind::Directory);
        Ok(child.item_id)
    }

    /// `unlink`: finds the file to remove. The caller marks the item `Deleted`
    /// (replying `EIO` if that fails), removes its cached content and then
    /// calls `unlink_commit`.
    pub fn unlink_check(&self, parent: u64, name: &str) -> (r: Result<UnlinkPlan, Errno>)
        ensures
            name_too_long(name) ==> r == Err::<UnlinkPlan, Errno>(Errno::NameTooLong),
            !name_too_long(name) && !has_named_child(self.entries(), parent, name@) ==> r == Err::<UnlinkPlan, Errno>(Errno::NotFound),
            !name_too_long(name) && has_named_child(self.entries(), parent, name@) ==>
                r is Ok || r == Err::<UnlinkPlan, Errno>(Errno::IsDir),
            r == Err::<UnlinkPlan, Errno>(Errno::IsDir) ==> exists|k: u64| is_named_child(self.entries(), k, parent, name@)
                && self.entries()[k].kind == FileKind::Directory,
            r matches Ok(p) ==> {
                &&& is_named_child(self.entries(), p.ino, parent, name@)
                &&& self.entries()[p.ino].kind != FileKind::Directory
                &&& p.item_id == self.entries()[p.ino].item_id
                &&& p.remote_id == self.entries()[p.ino].remote_id
            },
    {
        if name.len() > NAME_MAX {
            return Err(Errno::NameTooLong);
        }
        let child = match self.inode_table.lookup(parent, name) {
            None => return Err(Errno::NotFound),
            Some(c) => c,
        };
        if child.kind.is_dir() {
            return Err(Errno::IsDir);
        }
        Ok(UnlinkPlan { ino: child.ino.0, item_id: child.item_id, remote_id: child.remote_id })
    }

    /// Drops an unlinked file from the table.
    pub fn unlink_commit(&mut self, ino: u64)
        ensures
            final(self).entries() == old(self).entries().remove(ino),
            old(self).entries().dom().contains(ino) ==> final(self).inode_table.item_index()
                == old(self).inode_table.item_index().remove(old(self).entries()[ino].item_id.0),
            !old(self).entries().dom().contains(ino) ==> final(self).inode_table.item_index()
                == old(self).inode_table.item_index(),
            Self::same_rest(old(self), final(self)),
    {
        let _ = self.inode_table.remove(ino);
    }

    /// `rename`: moves `name` of `parent` to `newname` of `newparent`,
    /// replacing an entry already there when the kinds agree. Returns the moved
    /// inode and the replaced one. A missing source or destination parent is
    /// `ENOENT`, a destination parent that is not a directory `ENOTDIR`.
    /// Renaming an entry onto its own name changes nothing.
    pub fn rename(&mut self, parent: u64, name: &str, newparent: u64, newname: &str, now: SystemTime)
        -> (r: Result<(u64, Option<u64>), Errno>)
        ensures
            Self::same_rest(old(self), final(self)),
            r is Err ==> Self::unchanged(old(self), final(self)),
            name_too_long(name) || name_too_long(newname) ==> r == Err::<(u64, Option<u64>), Errno>(Errno::NameTooLong),
            !name_too_long(name) && !name_too_long(newname) && !has_named_child(old(self).entries(), parent, name@) ==>
                r == Err::<(u64, Option<u64>), Errno>(Errno::NotFound),
            !name_too_long(name) && !name_too_long(newname) && has_named_child(old(self).entries(), parent, name@)
                && !old(self).entries().dom().contains(newparent) ==>
                r == Err::<(u64, Option<u64>), Errno>(Errno::NotFound),
            !name_too_long(name) && !name_too_long(newname) && has_named_child(old(self).entries(), parent, name@)
                && old(self).entries().dom().contains(newparent)
                && old(self).entries()[newparent].kind != FileKind::Directory ==>
                r == Err::<(u64, Option<u64>), Errno>(Errno::NotDir),
            !name_too_long(name) && !name_too_long(newname) && has_named_child(old(self).entries(), parent, name@)
                && is_dir_entry(old(self).entries(), newparent)
                && parent == newparent && name@ == newname@ ==>
                (r matches Ok((s, dest)) && is_named_child(old(self).entries(), s, parent, name@) && dest is None)
                && Self::unchanged(old(self), final(self)),
            !name_too_long(name) && !name_too_long(newname) && has_named_child(old(self).entries(), parent, name@)
                && is_dir_entry(old(self).entries(), newparent)
                && !rename_kind_clash(old(self).entries(), parent, name@, newparent, newname@) ==> r is Ok,
            r == Err::<(u64, Option<u64>), Errno>(Errno::NameTooLong) ==> name_too_long(name) || name_too_long(newname),
            r == Err::<(u64, Option<u64>), Errno>(Errno::NotFound) ==> !name_too_long(name) && !name_too_long(newname)
                && (!has_named_child(old(self).entries(), parent, name@) || !old(self).entries().dom().contains(newparent)),
            r == Err::<(u64, Option<u64>), Errno>(Errno::IsDir) ==> is_dir_entry(old(self).entries(), newparent)
                && exists|s: u64, d: u64| is_named_child(old(self).entries(), s, parent, name@)
                    && is_named_child(old(self).entries(), d, newparent, newname@)
                    && old(self).entries()[d].kind == FileKind::Directory
                    && old(self).entries()[s].kind != FileKind::Directory,
            r == Err::<(u64, Option<u64>), Errno>(Errno::NotDir) ==>
                (has_named_child(old(self).entries(), parent, name@) && old(self).entries().dom().contains(newparent)
                    && old(self).entries()[newparent].kind != FileKind::Directory)
                || (is_dir_entry(old(self).entries(), newparent)
                    && exists|s: u64, d: u64| is_named_child(old(self).entries(), s, parent, name@)
                    && is_named_child(old(self).entries(), d, newparent, newname@)
                    && old(self).entries()[d].kind != FileKind::Directory
                    && old(self).entries()[s].kind == FileKind::Directory),
            r is Err ==> r == Err::<(u64, Option<u64>), Errno>(Errno::NameTooLong)
                || r == Err::<(u64, Option<u64>), Errno>(Errno::NotFound)
                || r == Err::<(u64, Option<u64>), Errno>(Errno::IsDir) || r == Err::<(u64, Option<u64>), Errno>(Errno::NotDir),
            !(parent == newparent && name@ == newname@) ==> (r matches Ok((s, dest)) ==> {
                let m = old(self).entries();
                let m1 = match dest { Some(d) => m.remove(d), None => m };
                &&& is_named_child(m, s, parent, name@)
                &&& dest matches Some(d) ==> d != s && is_named_child(m, d, newparent, newname@)
                    && (m[d].kind == FileKind::Directory) == (m[s].kind == FileKind::Directory)
                &&& dest is None ==> !has_named_child(m, newparent, newname@)
                &&& final(self).entries().dom().contains(s)
                &&& final(self).entries()[s] == renamed(m[s], newparent, newname@, now, final(self).entries()[s].name)
                &&& final(self).entries()[s].name@ == newname@
                &&& final(self).entries() == m1.insert(s, final(self).entries()[s])
            }),
    {
        if name.len() > NAME_MAX || newname.len() > NAME_MAX {
            return Err(Errno::NameTooLong);
        }
        let src = match self.inode_table.lookup(parent, name) {
            None => return Err(Errno::NotFound),
            Some(e) => e,
        };
        let s = src.ino.0;
        match self.inode_table.get(newparent) {
            None => return Err(Errno::NotFound),
            Some(p) => {
                if !p.kind.is_dir() {
                    return Err(Errno::NotDir);
                }
            },
        }
        if parent == newparent && crate::text::str_eq(name, newname) {
            return Ok((s, None));
        }
        let src_is_dir = src.kind.is_dir();
        let mut dest_ino: Option<u64> = None;
        match self.inode_table.lookup(newparent, newname) {
            Some(d) => {
                let d_is_dir = d.kind.is_dir();
                if d_is_dir && !src_is_dir {
                    return Err(Errno::IsDir);
                }
                if !d_is_dir && src_is_dir {
                    return Err(Errno::NotDir);
                }
                let _ = self.inode_table.remove(d.ino.0);
                dest_ino = Some(d.ino.0);
            },
            None => {},
        }
        let removed = match self.inode_table.remove(s) {
            None => return Err(Errno::NotFound),
            Some(e) => e,
        };
        let new_state = match removed.state {
            ItemState::Hydrated | ItemState::Pinned | ItemState::Modified => ItemState::Modified,
            other => other,
        };
        let moved = InodeEntry::new(removed.ino, removed.item_id, removed.remote_id, InodeNumber(newparent),
            crate::text::to_string(newname), removed.kind, removed.size, removed.perm, removed.mtime, now,
            removed.atime, removed.nlink, new_state);
        self.inode_table.insert(moved);
        Ok((s, dest_ino))
    }

    /// Reply to `getxattr`/`listxattr` for a value of `len` bytes and a
    /// caller buffer of `size` bytes.
    pub fn xattr_reply(len: usize, size: u32) -> (r: Result<XattrReply, Errno>)
        requires
            len <= u32::MAX,
        ensures
            size == 0 ==> r == Ok::<XattrReply, Errno>(XattrReply::Size(len as u32)),
            size != 0 && size < len ==> r == Err::<XattrReply, Errno>(Errno::Range),
            size != 0 && size >= len ==> r == Ok::<XattrReply, Errno>(XattrReply::Data),
    {
        if size == 0 {
            return Ok(XattrReply::Size(len as u32));
        }
        if (size as usize) < len {
            return Err(Errno::Range);
        }
        Ok(XattrReply::Data)
    }

    /// `setxattr` and `removexattr` are refused: `EACCES` in the filesystem's
    /// own namespace, `ENOTSUP` elsewhere (and for names that are not UTF-8).
    pub fn xattr_write_refusal(name: Option<&str>) -> (r: Errno)
        ensures
            r == (match name {
                Some(n) => if is_own_xattr(n@) { Errno::Access } else { Errno::NotSupported },
                None => Errno::NotSupported,
            }),
    {
        match name {
            Some(n) => {
                if crate::text::starts_with(n, "user.lnxdrive.") {
                    Errno::Access
                } else {
                    Errno::NotSupported
                }
            },
            None => Errno::NotSupported,
        }
    }
}

/// Attribute names as one buffer, each name followed by a zero byte.
pub open spec fn xattr_list_bytes(names: Seq<Seq<u8>>) -> Seq<u8>
    decreases names.len(),
{
    if names.len() == 0 {
        Seq::empty()
    } else {
        xattr_list_bytes(names.drop_last()) + names.last() + seq![0u8]
    }
}

/// Joins attribute names into the buffer `listxattr` replies with.
pub fn join_xattr_names(names: &Vec<String>) -> (r: Vec<u8>)
    ensures
        r@ == xattr_list_bytes(names@.map_values(|n: String| vstd::utf8::encode_utf8(n@))),
{
    let ghost bytes = names@.map_values(|n: String| vstd::utf8::encode_utf8(n@));
    let mut out: Vec<u8> = Vec::new();
    let mut i: usize = 0;
    while i < names.len()
        invariant
            i <= names@.len(),
            bytes == names@.map_values(|n: String| vstd::utf8::encode_utf8(n@)),
            out@ == xattr_list_bytes(bytes.subrange(0, i as int)),
        decreases names@.len() - i,
    {
        let b = names[i].as_str().as_bytes();
        let mut j: usize = 0;
        let ghost base = out@;
        while j < b.len()
            invariant
                j <= b@.len(),
                out@ == base + b@.subrange(0, j as int),
            decreases b@.len() - j,
        {
            out.push(b[j]);
            j = j + 1;
            proof { assert(out@ =~= base + b@.subrange(0, j as int)); }
        }
        out.push(0u8);
        proof {
            assert(bytes.subrange(0, i + 1).drop_last() =~= bytes.subrange(0, i as int));
            assert(b@ =~= bytes[i as int]);
            assert(out@ =~= xattr_list_bytes(bytes.subrange(0, i + 1)));
        }
        i = i + 1;
    }
    proof { assert(bytes.subrange(0, names@.len() as int) =~= bytes); }
    out
}

} // verus!
