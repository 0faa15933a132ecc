//! Item identity and sync state shared by the whole engine.

use vstd::prelude::*;

use crate::text::push_str;

verus! {

/// Unique identifier of a sync item (a 128-bit UUID value).
#[derive(Debug, Clone, Copy, PartialEq, Eq, Hash)]
pub struct UniqueId(pub u128);

impl UniqueId {
    /// Wraps a raw 128-bit identifier.
    pub fn from_u128(v: u128) -> (r: UniqueId)
        ensures
            r.0 == v,
    {
        UniqueId(v)
    }

    /// The raw 128-bit value.
    pub fn as_u128(&self) -> (r: u128)
        ensures
            r == self.0,
    {
        self.0
    }
}

/// Sync/hydration state of an item.
#[derive(Debug, Clone, PartialEq, Eq)]
pub enum ItemState {
    /// Placeholder only: content lives in the cloud.
    Online,
    /// Content is being downloaded.
    Hydrating,
    /// Content is present in the local cache.
    Hydrated,
    /// Content is present and must stay local.
    Pinned,
    /// Local content differs from the cloud and awaits upload.
    Modified,
    /// Item was removed.
    Deleted,
    /// Local and remote versions conflict.
    Conflicted,
    /// An operation on the item failed.
    Error(String),
}

/// Debug rendering of a state (`Online`, `Hydrated`, `Error("..")`, ...).
pub open spec fn state_debug(s: ItemState) -> Seq<char> {
    match s {
        ItemState::Online => "Online"@,
        ItemState::Hydrating => "Hydrating"@,
        ItemState::Hydrated => "Hydrated"@,
        ItemState::Pinned => "Pinned"@,
        ItemState::Modified => "Modified"@,
        ItemState::Deleted => "Deleted"@,
        ItemState::Conflicted => "Conflicted"@,
        ItemState::Error(m) => "Error(\""@ + m@ + "\")"@,
    }
}

impl ItemState {
    /// Whether the cached content of an item in this state may be dropped.
    pub open spec fn spec_can_dehydrate(&self) -> bool {
        self is Hydrated
    }

    /// Only `Hydrated` content may be dehydrated.
    pub fn can_dehydrate(&self) -> (r: bool)
        ensures
            r == self.spec_can_dehydrate(),
    {
        matches!(self, ItemState::Hydrated)
    }

    /// Content of the item is available locally (Hydrated, Pinned or Modified).
    pub open spec fn spec_is_local(&self) -> bool {
        self is Hydrated || self is Pinned || self is Modified
    }

    /// Whether the content of an item in this state is available locally.
    pub fn is_local(&self) -> (r: bool)
        ensures
            r == self.spec_is_local(),
    {
        match self {
            ItemState::Hydrated | ItemState::Pinned | ItemState::Modified => true,
            _ => false,
        }
    }

    /// Appends the debug rendering of this state to `out`.
    pub fn push_debug(&self, out: &mut String)
        ensures
            final(out)@ == old(out)@ + state_debug(*self),
    {
        match self {
            ItemState::Online => push_str(out, "Online"),
            ItemState::Hydrating => push_str(out, "Hydrating"),
            ItemState::Hydrated => push_str(out, "Hydrated"),
            ItemState::Pinned => push_str(out, "Pinned"),
            ItemState::Modified => push_str(out, "Modified"),
            ItemState::Deleted => push_str(out, "Deleted"),
            ItemState::Conflicted => push_str(out, "Conflicted"),
            ItemState::Error(m) => {
                let ghost before = out@;
                push_str(out, "Error(\"");
                push_str(out, m.as_str());
                push_str(out, "\")");
                assert(out@ =~= before + state_debug(*self));
            },
        }
    }

    /// A copy of this state.
    pub fn duplicate(&self) -> (r: ItemState)
        ensures
            r == *self,
    {
        match self {
            ItemState::Online => ItemState::Online,
            ItemState::Hydrating => ItemState::Hydrating,
            ItemState::Hydrated => ItemState::Hydrated,
            ItemState::Pinned => ItemState::Pinned,
            ItemState::Modified => ItemState::Modified,
            ItemState::Deleted => ItemState::Deleted,
            ItemState::Conflicted => ItemState::Conflicted,
            ItemState::Error(msg) => ItemState::Error(msg.clone()),
        }
    }
}

/// Kind of a filesystem node.
#[derive(Debug, Clone, Copy, PartialEq, Eq)]
pub enum FileKind {
    /// A regular file.
    RegularFile,
    /// A directory.
    Directory,
}

impl FileKind {
    /// Whether this is a directory.
    pub fn is_dir(&self) -> (r: bool)
        ensures
            r == (*self is Directory),
    {
        matches!(self, FileKind::Directory)
    }
}

} // verus!
