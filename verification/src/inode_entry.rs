//! Inode entries of the FUSE filesystem.
//!
//! An entry holds the metadata needed to answer FUSE requests without a
//! database query, plus two reference counters: kernel lookups
//! (`lookup`/`forget`) and open file handles (`open`/`release`).

use std::cmp::Ordering;
use std::time::SystemTime;

use vstd::prelude::*;

use crate::state::{FileKind, ItemState, UniqueId};

verus! {

/// `SystemTime` is carried through entries unchanged; nothing reads inside it.
#[verifier::external_type_specification]
#[verifier::external_body]
pub struct ExSystemTime(std::time::SystemTime);

/// Inode number of the mount point directory.
pub const ROOT_INO: u64 = 1;

/// A FUSE inode number.
#[derive(Debug, Clone, Copy, PartialEq, Eq, Hash, Ord)]
pub struct InodeNumber(pub u64);

impl InodeNumber {
    /// The root inode (1 by FUSE convention).
    pub fn root() -> (r: InodeNumber)
        ensures
            r.0 == ROOT_INO,
    {
        InodeNumber(ROOT_INO)
    }

    /// Wraps a raw inode number.
    pub fn new(val: u64) -> (r: InodeNumber)
        ensures
            r.0 == val,
    {
        InodeNumber(val)
    }

    /// The raw inode number.
    pub fn get(&self) -> (r: u64)
        ensures
            r == self.0,
    {
        self.0
    }

    /// The inode number as its decimal text.
    pub fn to_decimal(&self) -> (r: String)
        ensures
            r@ == crate::text::decimal(self.0 as nat),
    {
        crate::text::u64_to_decimal(self.0)
    }
}

impl PartialOrd for InodeNumber {
    /// Inode numbers are ordered as their raw numbers.
    fn partial_cmp(&self, other: &InodeNumber) -> (r: Option<Ordering>) {
        if self.0 < other.0 {
            Some(Ordering::Less)
        } else if self.0 == other.0 {
            Some(Ordering::Equal)
        } else {
            Some(Ordering::Greater)
        }
    }
}

impl vstd::std_specs::cmp::PartialOrdSpecImpl for InodeNumber {
    open spec fn obeys_partial_cmp_spec() -> bool {
        true
    }

    open spec fn partial_cmp_spec(&self, other: &InodeNumber) -> Option<Ordering> {
        if self.0 < other.0 {
            Some(Ordering::Less)
        } else if self.0 == other.0 {
            Some(Ordering::Equal)
        } else {
            Some(Ordering::Greater)
        }
    }
}

impl From<u64> for InodeNumber {
    /// Wraps a raw inode number.
    fn from(val: u64) -> (r: InodeNumber) {
        InodeNumber(val)
    }
}

impl vstd::std_specs::convert::FromSpecImpl<u64> for InodeNumber {
    open spec fn obeys_from_spec() -> bool {
        true
    }

    open spec fn from_spec(val: u64) -> InodeNumber {
        InodeNumber(val)
    }
}

impl From<InodeNumber> for u64 {
    /// The raw inode number.
    fn from(ino: InodeNumber) -> (r: u64) {
        ino.0
    }
}

impl vstd::std_specs::convert::FromSpecImpl<InodeNumber> for u64 {
    open spec fn obeys_from_spec() -> bool {
        true
    }

    open spec fn from_spec(ino: InodeNumber) -> u64 {
        ino.0
    }
}

/// In-memory representation of a FUSE inode.
#[derive(Debug)]
pub struct InodeEntry {
    /// FUSE inode number.
    pub ino: InodeNumber,
    /// Identifier of the sync item behind this inode.
    pub item_id: UniqueId,
    /// OneDrive item id (None for items created locally and not yet uploaded).
    pub remote_id: Option<String>,
    /// Parent directory inode.
    pub parent_ino: InodeNumber,
    /// Name of the entry in its parent directory.
    pub name: String,
    /// Regular file or directory.
    pub kind: FileKind,
    /// Size in bytes (the cloud size, also for placeholders).
    pub size: u64,
    /// Unix permission bits.
    pub perm: u16,
    /// Last modification time.
    pub mtime: SystemTime,
    /// Last metadata change time.
    pub ctime: SystemTime,
    /// Last access time.
    pub atime: SystemTime,
    /// Number of hard links.
    pub nlink: u32,
    /// Kernel references (incremented by lookup, decremented by forget).
    pub lookup_count: u64,
    /// Open file handles.
    pub open_handles: u64,
    /// Sync/hydration state.
    pub state: ItemState,
}

/// Number of 512-byte blocks that hold `size` bytes (rounded up).
pub open spec fn spec_blocks(size: u64) -> int {
    (size as int + 511) / 512
}

/// Attributes of an entry as reported to the kernel (owner ids are added by the caller).
#[derive(Debug, Clone, Copy)]
pub struct EntryAttr {
    /// Inode number.
    pub ino: u64,
    /// Size in bytes.
    pub size: u64,
    /// Number of 512-byte blocks.
    pub blocks: u64,
    /// Last access time.
    pub atime: SystemTime,
    /// Last modification time.
    pub mtime: SystemTime,
    /// Last metadata change time.
    pub ctime: SystemTime,
    /// Creation time (reported as the metadata change time).
    pub crtime: SystemTime,
    /// Regular file or directory.
    pub kind: FileKind,
    /// Permission bits.
    pub perm: u16,
    /// Hard link count.
    pub nlink: u32,
    /// Device number (always 0).
    pub rdev: u32,
    /// Preferred I/O block size (always 4096).
    pub blksize: u32,
    /// Flags (always 0).
    pub flags: u32,
}

/// The attributes reported for entry `e`.
pub open spec fn spec_attr(e: InodeEntry) -> EntryAttr {
    EntryAttr {
        ino: e.ino.0,
        size: e.size,
        blocks: spec_blocks(e.size) as u64,
        atime: e.atime,
        mtime: e.mtime,
        ctime: e.ctime,
        crtime: e.ctime,
        kind: e.kind,
        perm: e.perm,
        nlink: e.nlink,
        rdev: 0,
        blksize: 4096,
        flags: 0,
    }
}

impl InodeEntry {
    /// Creates an entry whose counters are both zero.
    pub fn new(
        ino: InodeNumber,
        item_id: UniqueId,
        remote_id: Option<String>,
        parent_ino: InodeNumber,
        name: String,
        kind: FileKind,
        size: u64,
        perm: u16,
        mtime: SystemTime,
        ctime: SystemTime,
        atime: SystemTime,
        nlink: u32,
        state: ItemState,
    ) -> (r: InodeEntry)
        ensures
            r.ino == ino,
            r.item_id == item_id,
            r.remote_id == remote_id,
            r.parent_ino == parent_ino,
            r.name == name,
            r.kind == kind,
            r.size == size,
            r.perm == perm,
            r.mtime == mtime,
            r.ctime == ctime,
            r.atime == atime,
            r.nlink == nlink,
            r.lookup_count == 0,
            r.open_handles == 0,
            r.state == state,
    {
        InodeEntry {
            ino,
            item_id,
            remote_id,
            parent_ino,
            name,
            kind,
            size,
            perm,
            mtime,
            ctime,
            atime,
            nlink,
            lookup_count: 0,
            open_handles: 0,
            state,
        }
    }

    /// A copy of this entry.
    pub fn duplicate(&self) -> (r: InodeEntry)
        ensures
            r == *self,
    {
        InodeEntry {
            ino: self.ino,
            item_id: self.item_id,
            remote_id: match &self.remote_id {
                Some(s) => Some(s.clone()),
                None => None,
            },
            parent_ino: self.parent_ino,
            name: self.name.clone(),
            kind: self.kind,
            size: self.size,
            perm: self.perm,
            mtime: self.mtime,
            ctime: self.ctime,
            atime: self.atime,
            nlink: self.nlink,
            lookup_count: self.lookup_count,
            open_handles: self.open_handles,
            state: self.state.duplicate(),
        }
    }

    /// Number of 512-byte blocks reported to the kernel for this entry.
    pub fn blocks(&self) -> (r: u64)
        ensures
            r == spec_blocks(self.size),
    {
        self.size / 512 + if self.size % 512 == 0 { 0 } else { 1 }
    }

    /// The attributes reported to the kernel for this entry.
    pub fn to_file_attr(&self) -> (r: EntryAttr)
        ensures
            r == spec_attr(*self),
    {
        EntryAttr {
            ino: self.ino.0,
            size: self.size,
            blocks: self.blocks(),
            atime: self.atime,
            mtime: self.mtime,
            ctime: self.ctime,
            crtime: self.ctime,
            kind: self.kind,
            perm: self.perm,
            nlink: self.nlink,
            rdev: 0,
            blksize: 4096,
            flags: 0,
        }
    }

    /// Counts one more kernel lookup (wrapping like the atomic counter).
    pub fn increment_lookup(&mut self)
        ensures
            final(self).lookup_count == (old(self).lookup_count + 1) % 0x1_0000_0000_0000_0000,
            *final(self) == (InodeEntry { lookup_count: final(self).lookup_count, ..*old(self) }),
    {
        self.lookup_count = self.lookup_count.wrapping_add(1);
    }

    /// Forgets one kernel lookup and returns the new count.
    pub fn decrement_lookup(&mut self) -> (r: u64)
        requires
            old(self).lookup_count >= 1,
        ensures
            r == old(self).lookup_count - 1,
            *final(self) == (InodeEntry { lookup_count: r, ..*old(self) }),
    {
        self.lookup_count = self.lookup_count - 1;
        self.lookup_count
    }

    /// Forgets `count` kernel lookups and returns the new count.
    pub fn decrement_lookup_by(&mut self, count: u64) -> (r: u64)
        requires
            count <= old(self).lookup_count,
        ensures
            r == old(self).lookup_count - count,
            *final(self) == (InodeEntry { lookup_count: r, ..*old(self) }),
    {
        self.lookup_count = self.lookup_count - count;
        self.lookup_count
    }

    /// Counts one more open handle (wrapping like the atomic counter).
    pub fn increment_open_handles(&mut self)
        ensures
            final(self).open_handles == (old(self).open_handles + 1) % 0x1_0000_0000_0000_0000,
            *final(self) == (InodeEntry { open_handles: final(self).open_handles, ..*old(self) }),
    {
        self.open_handles = self.open_handles.wrapping_add(1);
    }

    /// Releases one open handle and returns the new count.
    pub fn decrement_open_handles(&mut self) -> (r: u64)
        requires
            old(self).open_handles >= 1,
        ensures
            r == old(self).open_handles - 1,
            *final(self) == (InodeEntry { open_handles: r, ..*old(self) }),
    {
        self.open_handles = self.open_handles - 1;
        self.open_handles
    }

    /// Eviction eligibility: no kernel reference and no open handle.
    pub open spec fn spec_is_expired(&self) -> bool {
        self.lookup_count == 0 && self.open_handles == 0
    }

    /// Whether the entry may be evicted from memory.
    pub fn is_expired(&self) -> (r: bool)
        ensures
            r == self.spec_is_expired(),
    {
        self.lookup_count == 0 && self.open_handles == 0
    }

    /// The inode number.
    pub fn ino(&self) -> (r: InodeNumber)
        ensures
            r == self.ino,
    {
        self.ino
    }

    /// The sync item identifier.
    pub fn item_id(&self) -> (r: &UniqueId)
        ensures
            *r == self.item_id,
    {
        &self.item_id
    }

    /// The OneDrive item id, if any.
    pub fn remote_id(&self) -> (r: Option<&String>)
        ensures
            r == match self.remote_id {
                Some(s) => Some(&s),
                None => None::<&String>,
            },
    {
        match &self.remote_id {
            Some(s) => Some(s),
            None => None,
        }
    }

    /// The parent inode number.
    pub fn parent_ino(&self) -> (r: InodeNumber)
        ensures
            r == self.parent_ino,
    {
        self.parent_ino
    }

    /// The entry name.
    pub fn name(&self) -> (r: &str)
        ensures
            r@ == self.name@,
    {
        self.name.as_str()
    }

    /// The file kind.
    pub fn kind(&self) -> (r: FileKind)
        ensures
            r == self.kind,
    {
        self.kind
    }

    /// The size in bytes.
    pub fn size(&self) -> (r: u64)
        ensures
            r == self.size,
    {
        self.size
    }

    /// The permission bits.
    pub fn perm(&self) -> (r: u16)
        ensures
            r == self.perm,
    {
        self.perm
    }

    /// The modification time.
    pub fn mtime(&self) -> (r: SystemTime)
        ensures
            r == self.mtime,
    {
        self.mtime
    }

    /// The metadata change time.
    pub fn ctime(&self) -> (r: SystemTime)
        ensures
            r == self.ctime,
    {
        self.ctime
    }

    /// The access time.
    pub fn atime(&self) -> (r: SystemTime)
        ensures
            r == self.atime,
    {
        self.atime
    }

    /// The hard link count.
    pub fn nlink(&self) -> (r: u32)
        ensures
            r == self.nlink,
    {
        self.nlink
    }

    /// The current kernel lookup count.
    pub fn lookup_count(&self) -> (r: u64)
        ensures
            r == self.lookup_count,
    {
        self.lookup_count
    }

    /// The current open handle count.
    pub fn open_handles(&self) -> (r: u64)
        ensures
            r == self.open_handles,
    {
        self.open_handles
    }

    /// The sync/hydration state.
    pub fn state(&self) -> (r: &ItemState)
        ensures
            *r == self.state,
    {
        &self.state
    }
}

} // verus!
