//! Configuration of the FUSE filesystem.

use vstd::prelude::*;

verus! {

/// Settings of the Files-on-Demand filesystem.
#[derive(Debug, Clone)]
pub struct FuseConfig {
    /// Directory where the filesystem is mounted (may start with `~/`).
    pub mount_point: String,
    /// Whether the daemon mounts the filesystem on start.
    pub auto_mount: bool,
    /// Directory holding hydrated content.
    pub cache_dir: String,
    /// Cache capacity in GiB.
    pub cache_max_size_gb: u32,
    /// Cache usage (percent of capacity) that starts dehydration.
    pub dehydration_threshold_percent: u8,
    /// Age in days after which an unused file may be dehydrated.
    pub dehydration_max_age_days: u32,
    /// Minutes between periodic dehydration sweeps.
    pub dehydration_interval_minutes: u32,
    /// Maximum number of concurrent downloads.
    pub hydration_concurrency: u32,
}

} // verus!
