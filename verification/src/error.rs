//! Errors of the filesystem layer.

use vstd::prelude::*;

use crate::text::push_str;

verus! {

/// Error raised by filesystem-level operations; each variant carries a message.
#[derive(Debug, Clone, PartialEq, Eq)]
pub enum FuseError {
    /// The item, inode or path does not exist.
    NotFound(String),
    /// The operation is not allowed in the item's current condition.
    PermissionDenied(String),
    /// An argument or item state is unsuitable for the operation.
    InvalidArgument(String),
    /// A database query or update failed.
    DatabaseError(String),
    /// Downloading content failed.
    HydrationFailed(String),
    /// A local I/O operation failed.
    IoError(String),
    /// A path expected to be a directory is not one.
    NotADirectory(String),
    /// A directory expected to be empty is not.
    NotEmpty(String),
}

/// Human-readable prefix of each error kind.
pub open spec fn error_prefix(e: FuseError) -> Seq<char> {
    match e {
        FuseError::NotFound(_) => "Not found: "@,
        FuseError::PermissionDenied(_) => "Permission denied: "@,
        FuseError::InvalidArgument(_) => "Invalid argument: "@,
        FuseError::DatabaseError(_) => "Database error: "@,
        FuseError::HydrationFailed(_) => "Hydration failed: "@,
        FuseError::IoError(_) => "I/O error: "@,
        FuseError::NotADirectory(_) => "Not a directory: "@,
        FuseError::NotEmpty(_) => "Directory not empty: "@,
    }
}

/// The message carried by an error.
pub open spec fn error_message(e: FuseError) -> Seq<char> {
    match e {
        FuseError::NotFound(m) => m@,
        FuseError::PermissionDenied(m) => m@,
        FuseError::InvalidArgument(m) => m@,
        FuseError::DatabaseError(m) => m@,
        FuseError::HydrationFailed(m) => m@,
        FuseError::IoError(m) => m@,
        FuseError::NotADirectory(m) => m@,
        FuseError::NotEmpty(m) => m@,
    }
}

/// Full text of an error: its kind, then its message.
pub open spec fn error_text(e: FuseError) -> Seq<char> {
    error_prefix(e) + error_message(e)
}

impl FuseError {
    /// The text describing this error.
    pub fn describe(&self) -> (r: String)
        ensures
            r@ == error_text(*self),
    {
        let mut s = String::new();
        let m: &String = match self {
            FuseError::NotFound(m) => {
                push_str(&mut s, "Not found: ");
                m
            },
            FuseError::PermissionDenied(m) => {
                push_str(&mut s, "Permission denied: ");
                m
            },
            FuseError::InvalidArgument(m) => {
                push_str(&mut s, "Invalid argument: ");
                m
            },
            FuseError::DatabaseError(m) => {
                push_str(&mut s, "Database error: ");
                m
            },
            FuseError::HydrationFailed(m) => {
                push_str(&mut s, "Hydration failed: ");
                m
            },
            FuseError::IoError(m) => {
                push_str(&mut s, "I/O error: ");
                m
            },
            FuseError::NotADirectory(m) => {
                push_str(&mut s, "Not a directory: ");
                m
            },
            FuseError::NotEmpty(m) => {
                push_str(&mut s, "Directory not empty: ");
                m
            },
        };
        push_str(&mut s, m.as_str());
        proof {
            assert(s@ =~= error_text(*self));
        }
        s
    }
}

} // verus!
