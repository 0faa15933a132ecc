//! Verified core of a Files-on-Demand cloud sync engine.
//!
//! The crate holds the decision logic of the sync engine: the inode table
//! of the FUSE filesystem and the rules of its operations, file hydration
//! and dehydration, Microsoft Graph delta and upload bookkeeping, adaptive
//! rate limiting and the daemon state behind the D-Bus interfaces.
//! I/O (FUSE replies, HTTP, D-Bus, SQLite, the content cache) lives with
//! the callers; they hand this crate plain values and act on its answers.

pub mod state;
pub mod text;
pub mod error;
pub mod config;
pub mod inode_entry;
pub mod inode;
pub mod dehydration;
pub mod fs;
pub mod fs_init;
pub mod hydration;
pub mod graph;
pub mod rate_limit;
pub mod service;
pub mod sync;
pub mod laws;
