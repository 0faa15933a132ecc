use std::time::{Duration, SystemTime};

use lnxdrive::config::FuseConfig;
use lnxdrive::fs::{Errno, LnxDriveFs, ReadPlan, FOPEN_KEEP_CACHE};
use lnxdrive::fs_init::ItemRecord;
use lnxdrive::inode_entry::{InodeEntry, InodeNumber};
use lnxdrive::state::{FileKind, ItemState, UniqueId};

fn default_config() -> FuseConfig {
    FuseConfig {
        mount_point: "~/OneDrive".to_string(),
        auto_mount: true,
        cache_dir: "~/.local/share/lnxdrive/cache".to_string(),
        cache_max_size_gb: 10,
        dehydration_threshold_percent: 80,
        dehydration_max_age_days: 30,
        dehydration_interval_minutes: 60,
        hydration_concurrency: 8,
    }
}

fn now() -> SystemTime {
    SystemTime::UNIX_EPOCH + Duration::from_secs(1_700_000_000)
}

fn make_entry_with_state(ino: u64, parent_ino: u64, name: &str, is_dir: bool, state: ItemState, size: u64) -> InodeEntry {
    InodeEntry::new(
        InodeNumber::new(ino),
        UniqueId::from_u128(ino as u128 + 1000),
        Some(format!("remote_{}", ino)),
        InodeNumber::new(parent_ino),
        name.to_string(),
        if is_dir { FileKind::Directory } else { FileKind::RegularFile },
        size,
        if is_dir { 0o755 } else { 0o644 },
        now(),
        now(),
        now(),
        1,
        state,
    )
}

fn make_test_entry(ino: u64, parent_ino: u64, name: &str, is_dir: bool) -> InodeEntry {
    make_entry_with_state(
        ino,
        parent_ino,
        name,
        is_dir,
        if is_dir { ItemState::Hydrated } else { ItemState::Online },
        if is_dir { 0 } else { 1024 },
    )
}

fn new_fs() -> LnxDriveFs {
    LnxDriveFs::new(default_config())
}

fn item(id: u128, path: &str, is_dir: bool, size: u64) -> ItemRecord {
    ItemRecord {
        id: UniqueId::from_u128(id),
        inode: None,
        local_path: path.to_string(),
        remote_id: None,
        is_directory: is_dir,
        size_bytes: size,
        state: ItemState::Online,
        modified: None,
        accessed: None,
    }
}

/// Mount-time loading: items without an inode get the next numbers of the
/// counter (which starts after the root), then the table is populated.
fn simulate_init(fs: &mut LnxDriveFs, items: Vec<ItemRecord>) {
    let mut counter = 1u64;
    let mut with_inodes = Vec::new();
    for it in items {
        let ino = match it.inode {
            Some(i) => i,
            None => {
                counter += 1;
                counter
            }
        };
        with_inodes.push((it, ino));
    }
    fs.populate(UniqueId::from_u128(1), now(), with_inodes);
}

#[test]
fn test_new_creates_valid_instance() {
    let mut fs = new_fs();
    assert!(fs.inode_table().is_empty());
    assert_eq!(fs.alloc_fh(), 1);
}

#[test]
fn test_alloc_fh_increments() {
    let mut fs = new_fs();
    assert_eq!(fs.alloc_fh(), 1);
    assert_eq!(fs.alloc_fh(), 2);
    assert_eq!(fs.alloc_fh(), 3);
}

#[test]
fn test_init_loads_items_from_db_into_inode_table() {
    let mut fs = new_fs();
    simulate_init(
        &mut fs,
        vec![
            item(10, "/home/user/OneDrive/file1.txt", false, 1024),
            item(11, "/home/user/OneDrive/folder", true, 0),
        ],
    );
    assert_eq!(fs.inode_table().len(), 3);
    let found_file = fs.lookup_entry(InodeNumber::root().get(), "file1.txt");
    assert!(found_file.is_some());
    assert_eq!(found_file.unwrap().name(), "file1.txt");
    let found_folder = fs.lookup_entry(InodeNumber::root().get(), "folder");
    assert!(found_folder.is_some());
    assert_eq!(found_folder.unwrap().kind(), FileKind::Directory);
}

#[test]
fn test_init_root_inode_is_1() {
    let mut fs = new_fs();
    simulate_init(&mut fs, vec![]);
    let root_entry = fs.get_entry(1).expect("Root inode should exist");
    assert_eq!(root_entry.ino().get(), InodeNumber::root().get());
    assert_eq!(root_entry.ino().get(), 1);
    assert_eq!(root_entry.kind(), FileKind::Directory);
    assert_eq!(root_entry.parent_ino().get(), 1);
    assert_eq!(root_entry.name(), "");
}

#[test]
fn test_init_inode_assignment_for_new_items() {
    let item1 = item(10, "/home/user/OneDrive/new1.txt", false, 512);
    let item2 = item(11, "/home/user/OneDrive/new2.txt", false, 256);
    assert!(item1.inode.is_none());
    assert!(item2.inode.is_none());
    let mut fs = new_fs();
    simulate_init(&mut fs, vec![item1, item2]);
    let found1 = fs.lookup_entry(InodeNumber::root().get(), "new1.txt").unwrap();
    let found2 = fs.lookup_entry(InodeNumber::root().get(), "new2.txt").unwrap();
    assert!(found1.ino().get() > 1);
    assert!(found2.ino().get() > 1);
    assert_ne!(found1.ino().get(), found2.ino().get());
}

#[test]
fn test_init_remount_preserves_existing_inodes() {
    let mut fs = new_fs();
    simulate_init(&mut fs, vec![item(10, "/home/user/OneDrive/preserved.txt", false, 2048)]);
    let found = fs.lookup_entry(InodeNumber::root().get(), "preserved.txt").unwrap();
    let assigned_inode = found.ino().get();
    assert!(assigned_inode > 1, "New items should be assigned inodes > 1, got {}", assigned_inode);
    let found_again = fs.lookup_entry(InodeNumber::root().get(), "preserved.txt").unwrap();
    assert_eq!(found.ino().get(), found_again.ino().get());

    let mut kept = item(10, "/home/user/OneDrive/preserved.txt", false, 2048);
    kept.inode = Some(assigned_inode);
    let mut remounted = new_fs();
    simulate_init(&mut remounted, vec![kept]);
    assert_eq!(remounted.lookup_entry(1, "preserved.txt").unwrap().ino().get(), assigned_inode);
}

#[test]
fn test_init_with_preallocated_inode_via_inode_table() {
    let mut fs = new_fs();
    let expected_inode = 42u64;
    let entry = InodeEntry::new(
        InodeNumber::new(expected_inode),
        UniqueId::from_u128(77),
        Some("remote_preserved".to_string()),
        InodeNumber::root(),
        "preserved.txt".to_string(),
        FileKind::RegularFile,
        2048,
        0o644,
        now(),
        now(),
        now(),
        1,
        ItemState::Online,
    );
    fs.insert_entry(make_test_entry(1, 1, "", true));
    fs.insert_entry(entry);
    let found = fs.lookup_entry(InodeNumber::root().get(), "preserved.txt").unwrap();
    assert_eq!(found.ino().get(), expected_inode);
    let by_ino = fs.get_entry(expected_inode).unwrap();
    assert_eq!(by_ino.name(), "preserved.txt");
}

#[test]
fn test_init_with_nested_directory_structure() {
    let mut fs = new_fs();
    simulate_init(
        &mut fs,
        vec![
            item(10, "/home/user/OneDrive/Documents", true, 0),
            item(11, "/home/user/OneDrive/Documents/report.pdf", false, 4096),
        ],
    );
    let found_dir = fs.lookup_entry(InodeNumber::root().get(), "Documents").unwrap();
    let found_file = fs.lookup_entry(found_dir.ino().get(), "report.pdf").unwrap();
    assert_eq!(found_file.parent_ino().get(), found_dir.ino().get());
    assert_eq!(found_file.name(), "report.pdf");
}

#[test]
fn test_init_with_empty_database() {
    let mut fs = new_fs();
    simulate_init(&mut fs, vec![]);
    assert_eq!(fs.inode_table().len(), 1);
    let root = fs.get_entry(1).unwrap();
    assert_eq!(root.kind(), FileKind::Directory);
}

#[test]
fn test_lookup_returns_correct_entry() {
    let mut fs = new_fs();
    fs.insert_entry(make_test_entry(1, 1, "", true));
    fs.insert_entry(make_test_entry(10, 1, "testfile.txt", false));
    let found = fs.lookup_entry(1, "testfile.txt");
    assert!(found.is_some());
    let entry = found.unwrap();
    assert_eq!(entry.ino().get(), 10);
    assert_eq!(entry.name(), "testfile.txt");
    assert_eq!(entry.parent_ino().get(), 1);
    assert_eq!(entry.kind(), FileKind::RegularFile);
}

#[test]
fn test_lookup_increments_lookup_count() {
    let mut fs = new_fs();
    fs.insert_entry(make_test_entry(1, 1, "", true));
    fs.insert_entry(make_test_entry(10, 1, "counter_test.txt", false));
    assert_eq!(fs.get_entry(10).unwrap().lookup_count(), 0);
    fs.lookup(1, "counter_test.txt").unwrap();
    assert_eq!(fs.get_entry(10).unwrap().lookup_count(), 1);
    fs.lookup(1, "counter_test.txt").unwrap();
    fs.lookup(1, "counter_test.txt").unwrap();
    assert_eq!(fs.get_entry(10).unwrap().lookup_count(), 3);
}

#[test]
fn test_getattr_returns_real_size_for_online_items() {
    let mut fs = new_fs();
    let expected_size = 1_048_576u64;
    fs.insert_entry(make_entry_with_state(10, 1, "large_file.bin", false, ItemState::Online, expected_size));
    let retrieved = fs.get_entry(10).unwrap();
    assert_eq!(retrieved.state(), &ItemState::Online);
    assert_eq!(retrieved.size(), expected_size);
    assert_eq!(retrieved.to_file_attr().size, expected_size);
    assert_eq!(fs.getattr(10).unwrap().size, expected_size);
}

#[test]
fn test_lookup_enoent_for_nonexistent_items() {
    let mut fs = new_fs();
    fs.insert_entry(make_test_entry(1, 1, "", true));
    assert!(fs.lookup_entry(1, "nonexistent.txt").is_none());
    assert_eq!(fs.lookup(1, "nonexistent.txt").unwrap_err(), Errno::NotFound);
}

#[test]
fn test_getattr_enoent_for_nonexistent_inode() {
    let fs = new_fs();
    assert!(fs.get_entry(999).is_none());
    assert_eq!(fs.getattr(999).unwrap_err(), Errno::NotFound);
}

#[test]
fn test_lookup_with_wrong_parent() {
    let mut fs = new_fs();
    fs.insert_entry(make_test_entry(1, 1, "", true));
    fs.insert_entry(make_test_entry(10, 1, "subdir", true));
    fs.insert_entry(make_test_entry(20, 10, "file_in_subdir.txt", false));
    assert!(fs.lookup_entry(1, "file_in_subdir.txt").is_none());
    assert!(fs.lookup_entry(10, "file_in_subdir.txt").is_some());
}

#[test]
fn test_getattr_returns_correct_attributes() {
    let mut fs = new_fs();
    fs.insert_entry(make_entry_with_state(42, 1, "attrs_test.txt", false, ItemState::Hydrated, 2048));
    let attr = fs.get_entry(42).unwrap().to_file_attr();
    assert_eq!(attr.ino, 42);
    assert_eq!(attr.size, 2048);
    assert_eq!(attr.kind, FileKind::RegularFile);
    assert_eq!(attr.perm, 0o644);
    assert_eq!(attr.nlink, 1);
}

#[test]
fn test_getattr_directory_attributes() {
    let mut fs = new_fs();
    fs.insert_entry(make_test_entry(50, 1, "mydir", true));
    let attr = fs.get_entry(50).unwrap().to_file_attr();
    assert_eq!(attr.kind, FileKind::Directory);
    assert_eq!(attr.perm, 0o755);
    assert_eq!(attr.size, 0);
}

#[test]
fn test_readdir_returns_all_children() {
    let mut fs = new_fs();
    fs.insert_entry(make_test_entry(1, 1, "", true));
    fs.insert_entry(make_test_entry(10, 1, "file1.txt", false));
    fs.insert_entry(make_test_entry(11, 1, "file2.txt", false));
    fs.insert_entry(make_test_entry(12, 1, "subdir", true));
    let children = fs.get_children(1);
    assert_eq!(children.len(), 3);
    let names: Vec<&str> = children.iter().map(|e| e.name()).collect();
    assert!(names.contains(&"file1.txt"));
    assert!(names.contains(&"file2.txt"));
    assert!(names.contains(&"subdir"));
}

#[test]
fn test_readdir_empty_directory() {
    let mut fs = new_fs();
    fs.insert_entry(make_test_entry(1, 1, "", true));
    fs.insert_entry(make_test_entry(10, 1, "empty", true));
    assert_eq!(fs.get_children(10).len(), 0);
}

#[test]
fn test_readdir_includes_dot_and_dotdot_conceptually() {
    let mut fs = new_fs();
    fs.insert_entry(make_test_entry(1, 1, "", true));
    fs.insert_entry(make_test_entry(10, 1, "subdir", true));
    fs.insert_entry(make_test_entry(20, 10, "file.txt", false));
    let current_dir = fs.get_entry(10).unwrap();
    assert_eq!(current_dir.ino().get(), 10);
    let parent_dir = fs.get_entry(current_dir.parent_ino().get()).unwrap();
    assert_eq!(parent_dir.ino().get(), 1);
    let children = fs.get_children(10);
    assert_eq!(children.len(), 1);
    assert_eq!(children[0].name(), "file.txt");

    let lines = fs.readdir(10, 0).unwrap();
    assert_eq!(lines.len(), 3);
    assert_eq!((lines[0].ino, lines[0].name.as_str()), (10, "."));
    assert_eq!((lines[1].ino, lines[1].name.as_str()), (1, ".."));
    assert_eq!((lines[2].ino, lines[2].name.as_str()), (20, "file.txt"));
}

#[test]
fn test_readdir_pagination_simulation() {
    let mut fs = new_fs();
    fs.insert_entry(make_test_entry(1, 1, "", true));
    for i in 0..10 {
        fs.insert_entry(make_test_entry(100 + i, 1, &format!("file{:02}.txt", i), false));
    }
    let children = fs.get_children(1);
    assert_eq!(children.len(), 10);
    let offset = 3;
    let paginated: Vec<_> = children.iter().skip(offset).collect();
    assert_eq!(paginated.len(), 7);
    assert!(paginated[0].ino().get() >= 100);

    let all = fs.readdir(1, 0).unwrap();
    assert_eq!(all.len(), 12);
    assert!(all[2..].iter().all(|l| l.ino != 1));
    let rest = fs.readdir(1, 5).unwrap();
    assert_eq!(rest.len(), 7);
    assert_eq!(rest[0].offset, 6);
}

#[test]
fn test_readdir_nested_directories() {
    let mut fs = new_fs();
    fs.insert_entry(make_test_entry(1, 1, "", true));
    fs.insert_entry(make_test_entry(10, 1, "dir1", true));
    fs.insert_entry(make_test_entry(20, 1, "dir2", true));
    fs.insert_entry(make_test_entry(100, 10, "file1.txt", false));
    fs.insert_entry(make_test_entry(101, 10, "subdir", true));
    fs.insert_entry(make_test_entry(200, 101, "deep_file.txt", false));
    fs.insert_entry(make_test_entry(300, 20, "file2.txt", false));
    assert_eq!(fs.get_children(1).len(), 2);
    assert_eq!(fs.get_children(10).len(), 2);
    let subdir_children = fs.get_children(101);
    assert_eq!(subdir_children.len(), 1);
    assert_eq!(subdir_children[0].name(), "deep_file.txt");
    let dir2_children = fs.get_children(20);
    assert_eq!(dir2_children.len(), 1);
    assert_eq!(dir2_children[0].name(), "file2.txt");
}

#[test]
fn test_readdir_nonexistent_directory() {
    let fs = new_fs();
    assert_eq!(fs.get_children(999).len(), 0);
    assert_eq!(fs.readdir(999, 0).unwrap_err(), Errno::NotFound);
}

#[test]
fn test_readdir_children_have_correct_parent_ino() {
    let mut fs = new_fs();
    fs.insert_entry(make_test_entry(1, 1, "", true));
    fs.insert_entry(make_test_entry(10, 1, "parent_dir", true));
    fs.insert_entry(make_test_entry(100, 10, "child1.txt", false));
    fs.insert_entry(make_test_entry(101, 10, "child2.txt", false));
    let children = fs.get_children(10);
    assert_eq!(children.len(), 2);
    for child in &children {
        assert_eq!(child.parent_ino().get(), 10, "Child {} should have parent_ino = 10", child.name());
    }
}

#[test]
fn test_readdir_distinguishes_files_and_directories() {
    let mut fs = new_fs();
    fs.insert_entry(make_test_entry(1, 1, "", true));
    fs.insert_entry(make_test_entry(10, 1, "a_file.txt", false));
    fs.insert_entry(make_test_entry(11, 1, "a_directory", true));
    let children = fs.get_children(1);
    assert_eq!(children.len(), 2);
    let file_entry = children.iter().find(|e| e.name() == "a_file.txt").unwrap();
    let dir_entry = children.iter().find(|e| e.name() == "a_directory").unwrap();
    assert_eq!(file_entry.kind(), FileKind::RegularFile);
    assert_eq!(dir_entry.kind(), FileKind::Directory);
}

#[test]
fn test_open_increments_open_handles() {
    let mut fs = new_fs();
    fs.insert_entry(make_test_entry(1, 1, "", true));
    fs.insert_entry(make_entry_with_state(10, 1, "test.txt", false, ItemState::Hydrated, 1024));
    assert_eq!(fs.get_entry(10).unwrap().open_handles(), 0);
    fs.open(10, false).unwrap();
    assert_eq!(fs.get_entry(10).unwrap().open_handles(), 1);
    fs.open(10, false).unwrap();
    assert_eq!(fs.get_entry(10).unwrap().open_handles(), 2);
}

#[test]
fn test_open_on_directory_would_return_eisdir() {
    let mut fs = new_fs();
    fs.insert_entry(make_test_entry(1, 1, "", true));
    fs.insert_entry(make_entry_with_state(10, 1, "mydir", true, ItemState::Hydrated, 0));
    assert_eq!(fs.get_entry(10).unwrap().kind(), FileKind::Directory);
    assert_eq!(fs.open(10, true).unwrap_err(), Errno::IsDir);
}

#[test]
fn test_open_on_online_file_logs_hydration_needed() {
    let mut fs = new_fs();
    fs.insert_entry(make_test_entry(1, 1, "", true));
    fs.insert_entry(make_entry_with_state(10, 1, "placeholder.txt", false, ItemState::Online, 2048));
    assert_eq!(fs.get_entry(10).unwrap().state(), &ItemState::Online);
    let reply = fs.open(10, true).unwrap();
    assert_eq!(reply.flags, 0);
    let start = reply.hydrate.unwrap();
    assert_eq!(start.remote_id, "remote_10");
    assert_eq!(start.total_size, 2048);
    assert_eq!(fs.get_entry(10).unwrap().open_handles(), 1);
}

#[test]
fn test_open_on_hydrated_file_uses_keep_cache() {
    let mut fs = new_fs();
    fs.insert_entry(make_test_entry(1, 1, "", true));
    fs.insert_entry(make_entry_with_state(10, 1, "cached.txt", false, ItemState::Hydrated, 1024));
    assert_eq!(fs.get_entry(10).unwrap().state(), &ItemState::Hydrated);
    let reply = fs.open(10, true).unwrap();
    assert_eq!(reply.flags, FOPEN_KEEP_CACHE);
    assert!(reply.hydrate.is_none());
}

#[test]
fn test_open_on_nonexistent_inode_would_return_enoent() {
    let mut fs = new_fs();
    assert!(fs.get_entry(999).is_none());
    assert_eq!(fs.open(999, true).unwrap_err(), Errno::NotFound);
}

#[test]
fn test_double_open_increments_handles_twice() {
    let mut fs = new_fs();
    fs.insert_entry(make_test_entry(1, 1, "", true));
    fs.insert_entry(make_entry_with_state(10, 1, "double.txt", false, ItemState::Hydrated, 512));
    assert_eq!(fs.get_entry(10).unwrap().open_handles(), 0);
    let fh1 = fs.open(10, false).unwrap().fh;
    assert_eq!(fs.get_entry(10).unwrap().open_handles(), 1);
    let fh2 = fs.open(10, false).unwrap().fh;
    assert_eq!(fs.get_entry(10).unwrap().open_handles(), 2);
    assert_ne!(fh1, fh2);
}

#[test]
fn test_read_on_online_file_would_return_eio() {
    let mut fs = new_fs();
    fs.insert_entry(make_test_entry(1, 1, "", true));
    fs.insert_entry(make_entry_with_state(10, 1, "online.txt", false, ItemState::Online, 2048));
    assert_eq!(fs.get_entry(10).unwrap().state(), &ItemState::Online);
    assert_eq!(fs.read(10, false, false).unwrap_err(), Errno::Io);
}

#[test]
fn test_read_on_hydrating_file_would_return_eio() {
    let mut fs = new_fs();
    fs.insert_entry(make_test_entry(1, 1, "", true));
    fs.insert_entry(make_entry_with_state(10, 1, "hydrating.txt", false, ItemState::Hydrating, 4096));
    assert_eq!(fs.get_entry(10).unwrap().state(), &ItemState::Hydrating);
    assert_eq!(fs.read(10, false, false).unwrap_err(), Errno::Io);
}

#[test]
fn test_read_on_pinned_file_returns_data() {
    let mut fs = new_fs();
    fs.insert_entry(make_test_entry(1, 1, "", true));
    fs.insert_entry(make_entry_with_state(10, 1, "pinned.txt", false, ItemState::Pinned, 19));
    assert_eq!(fs.get_entry(10).unwrap().state(), &ItemState::Pinned);
    assert_eq!(fs.read(10, true, false).unwrap(), ReadPlan::Cache("remote_10".to_string()));
}

#[test]
fn test_read_on_modified_file_returns_data() {
    let mut fs = new_fs();
    fs.insert_entry(make_test_entry(1, 1, "", true));
    fs.insert_entry(make_entry_with_state(10, 1, "modified.txt", false, ItemState::Modified, 21));
    assert_eq!(fs.get_entry(10).unwrap().state(), &ItemState::Modified);
    assert_eq!(fs.read(10, true, false).unwrap(), ReadPlan::Cache("remote_10".to_string()));
}

#[test]
fn test_read_on_nonexistent_inode_would_return_enoent() {
    let fs = new_fs();
    assert!(fs.get_entry(999).is_none());
    assert_eq!(fs.read(999, true, false).unwrap_err(), Errno::NotFound);
}

#[test]
fn test_release_decrements_open_handles() {
    let mut fs = new_fs();
    fs.insert_entry(make_test_entry(1, 1, "", true));
    fs.insert_entry(make_entry_with_state(10, 1, "release.txt", false, ItemState::Hydrated, 1024));
    fs.open(10, false).unwrap();
    fs.open(10, false).unwrap();
    assert_eq!(fs.get_entry(10).unwrap().open_handles(), 2);
    assert_eq!(fs.release(10), Some(false));
    assert_eq!(fs.get_entry(10).unwrap().open_handles(), 1);
    assert_eq!(fs.release(10), Some(true));
    assert_eq!(fs.get_entry(10).unwrap().open_handles(), 0);
}

#[test]
fn test_release_at_zero_makes_file_eligible_for_dehydration() {
    let mut fs = new_fs();
    fs.insert_entry(make_test_entry(1, 1, "", true));
    fs.insert_entry(make_entry_with_state(10, 1, "dehydrate.txt", false, ItemState::Hydrated, 1024));
    fs.open(10, false).unwrap();
    assert_eq!(fs.get_entry(10).unwrap().open_handles(), 1);
    assert_eq!(fs.release(10), Some(true));
    let entry = fs.get_entry(10).unwrap();
    assert_eq!(entry.open_handles(), 0);
    assert_eq!(entry.state(), &ItemState::Hydrated);
}

#[test]
fn test_release_on_nonexistent_inode_logs_warning() {
    let mut fs = new_fs();
    assert!(fs.get_entry(999).is_none());
    assert_eq!(fs.release(999), None);
}

#[test]
fn test_alloc_fh_provides_unique_handles() {
    let mut fs = new_fs();
    assert_eq!(fs.alloc_fh(), 1);
    assert_eq!(fs.alloc_fh(), 2);
    assert_eq!(fs.alloc_fh(), 3);
    assert_eq!(fs.alloc_fh(), 4);
}

#[test]
fn test_error_state_file_would_return_eio_on_read() {
    let mut fs = new_fs();
    fs.insert_entry(make_test_entry(1, 1, "", true));
    fs.insert_entry(make_entry_with_state(10, 1, "error.txt", false, ItemState::Error("Sync failed".to_string()), 1024));
    match fs.get_entry(10).unwrap().state() {
        ItemState::Error(_) => (),
        _ => panic!("Expected Error state"),
    }
    assert_eq!(fs.read(10, true, false).unwrap_err(), Errno::Io);
}

#[test]
fn test_multiple_concurrent_opens_share_inode_entry() {
    let mut fs = new_fs();
    fs.insert_entry(make_test_entry(1, 1, "", true));
    fs.insert_entry(make_entry_with_state(10, 1, "shared.txt", false, ItemState::Hydrated, 1024));
    fs.open(10, false).unwrap();
    assert_eq!(fs.get_entry(10).unwrap().open_handles(), 1);
    fs.open(10, false).unwrap();
    assert_eq!(fs.get_entry(10).unwrap().open_handles(), 2);
    fs.open(10, false).unwrap();
    assert_eq!(fs.get_entry(10).unwrap().open_handles(), 3);
}

#[test]
fn test_mkdir_creates_directory_in_root() {
    let mut fs = new_fs();
    fs.insert_entry(make_test_entry(1, 1, "", true));
    assert_eq!(fs.inode_table().len(), 1);
    assert_eq!(fs.get_entry(1).unwrap().kind(), FileKind::Directory);
    assert!(fs.check_creation(1, "newdir").is_ok());
    fs.mkdir_commit(1, "newdir", 0o755, 0o022, 2, UniqueId::from_u128(5), now());
    assert_eq!(fs.inode_table().len(), 2);
    assert_eq!(fs.lookup_entry(1, "newdir").unwrap().kind(), FileKind::Directory);
}

#[test]
fn test_mkdir_parent_must_exist() {
    let fs = new_fs();
    assert!(fs.get_entry(999).is_none(), "Parent inode 999 should not exist - mkdir would return ENOENT");
    assert_eq!(fs.check_creation(999, "x").unwrap_err(), Errno::NotFound);
}

#[test]
fn test_mkdir_parent_must_be_directory() {
    let mut fs = new_fs();
    fs.insert_entry(make_test_entry(1, 1, "", true));
    fs.insert_entry(make_test_entry(10, 1, "file.txt", false));
    assert_eq!(fs.get_entry(10).unwrap().kind(), FileKind::RegularFile, "mkdir in a file would return ENOTDIR");
    assert_eq!(fs.check_creation(10, "x").unwrap_err(), Errno::NotDir);
}

#[test]
fn test_mkdir_entry_must_not_exist() {
    let mut fs = new_fs();
    fs.insert_entry(make_test_entry(1, 1, "", true));
    fs.insert_entry(make_test_entry(10, 1, "existing_dir", true));
    assert!(fs.lookup_entry(1, "existing_dir").is_some(), "existing_dir exists - mkdir would return EEXIST");
    assert_eq!(fs.check_creation(1, "existing_dir").unwrap_err(), Errno::Exists);
}

#[test]
fn test_mkdir_directory_permissions_include_execute() {
    let mode: u32 = 0o755;
    let umask: u32 = 0o022;
    let perm = ((mode & !umask) | 0o111) as u16;
    assert_eq!(perm & 0o111, 0o111, "Execute bits should be set");

    let mut fs = new_fs();
    fs.insert_entry(make_test_entry(1, 1, "", true));
    let attr = fs.mkdir_commit(1, "d", 0o600, 0o022, 2, UniqueId::from_u128(5), now());
    assert_eq!(attr.perm & 0o111, 0o111);
}

#[test]
fn test_rmdir_entry_must_exist() {
    let mut fs = new_fs();
    fs.insert_entry(make_test_entry(1, 1, "", true));
    assert!(fs.lookup_entry(1, "nonexistent").is_none(), "nonexistent should not be found - rmdir would return ENOENT");
    assert_eq!(fs.rmdir(1, "nonexistent").unwrap_err(), Errno::NotFound);
}

#[test]
fn test_rmdir_entry_must_be_directory() {
    let mut fs = new_fs();
    fs.insert_entry(make_test_entry(1, 1, "", true));
    fs.insert_entry(make_test_entry(10, 1, "file.txt", false));
    let entry = fs.lookup_entry(1, "file.txt").unwrap();
    assert_eq!(entry.kind(), FileKind::RegularFile, "rmdir on a file would return ENOTDIR");
    assert_eq!(fs.rmdir(1, "file.txt").unwrap_err(), Errno::NotDir);
}

#[test]
fn test_rmdir_directory_must_be_empty() {
    let mut fs = new_fs();
    fs.insert_entry(make_test_entry(1, 1, "", true));
    fs.insert_entry(make_test_entry(10, 1, "subdir", true));
    fs.insert_entry(make_test_entry(20, 10, "child.txt", false));
    assert_eq!(fs.inode_table().children(10).len(), 1, "subdir has 1 child - rmdir would return ENOTEMPTY");
    assert_eq!(fs.rmdir(1, "subdir").unwrap_err(), Errno::NotEmpty);
}

#[test]
fn test_rmdir_empty_directory_has_no_children() {
    let mut fs = new_fs();
    fs.insert_entry(make_test_entry(1, 1, "", true));
    fs.insert_entry(make_test_entry(10, 1, "empty_dir", true));
    assert!(fs.inode_table().children(10).is_empty(), "empty_dir has no children - rmdir can proceed");
    assert_eq!(fs.rmdir(1, "empty_dir").unwrap(), UniqueId::from_u128(1010));
}

#[test]
fn test_rmdir_removes_entry_from_inode_table() {
    let mut fs = new_fs();
    fs.insert_entry(make_test_entry(1, 1, "", true));
    fs.insert_entry(make_test_entry(10, 1, "to_remove", true));
    assert_eq!(fs.inode_table().len(), 2);
    fs.inode_table.remove(10);
    assert_eq!(fs.inode_table().len(), 1);
    assert!(fs.get_entry(10).is_none(), "Entry should be removed");
    assert!(fs.lookup_entry(1, "to_remove").is_none(), "Lookup should not find removed entry");
}

#[test]
fn test_mkdir_creates_directory_with_modified_state() {
    let state = ItemState::Modified;
    assert!(!matches!(state, ItemState::Online), "New directories should be Modified, not Online");
    let mut fs = new_fs();
    fs.insert_entry(make_test_entry(1, 1, "", true));
    fs.mkdir_commit(1, "d", 0o755, 0o022, 2, UniqueId::from_u128(5), now());
    assert_eq!(fs.get_entry(2).unwrap().state(), &ItemState::Modified);
}

#[test]
fn test_mkdir_directory_has_nlink_2() {
    let nlink: u32 = 2;
    assert_eq!(nlink, 2, "Directories should have nlink=2");
    let mut fs = new_fs();
    fs.insert_entry(make_test_entry(1, 1, "", true));
    let attr = fs.mkdir_commit(1, "d", 0o755, 0o022, 2, UniqueId::from_u128(5), now());
    assert_eq!(attr.nlink, 2);
}

#[test]
fn test_write_requires_hydrated_state() {
    let mut fs = new_fs();
    fs.insert_entry(make_entry_with_state(10, 1, "a", false, ItemState::Online, 1));
    fs.insert_entry(make_entry_with_state(11, 1, "b", false, ItemState::Hydrated, 1));
    fs.insert_entry(make_entry_with_state(12, 1, "c", false, ItemState::Pinned, 1));
    fs.insert_entry(make_entry_with_state(13, 1, "d", false, ItemState::Modified, 1));
    assert_eq!(fs.write(10).unwrap_err(), Errno::Io, "Online files need hydration before write");
    assert!(fs.write(11).is_ok(), "Hydrated files can be written to");
    assert!(fs.write(12).is_ok(), "Pinned files can be written to");
    assert!(fs.write(13).is_ok(), "Modified files can be written to");
}

#[test]
fn test_write_transitions_to_modified() {
    let mut fs = new_fs();
    fs.insert_entry(make_entry_with_state(11, 1, "b", false, ItemState::Hydrated, 1));
    assert!(fs.write(11).unwrap().mark_modified);
}

#[test]
fn test_write_already_modified_stays_modified() {
    let mut fs = new_fs();
    fs.insert_entry(make_entry_with_state(13, 1, "d", false, ItemState::Modified, 1));
    assert!(!fs.write(13).unwrap().mark_modified, "Already modified files stay modified");
}

#[test]
fn test_create_assigns_new_inode() {
    let mut fs = new_fs();
    fs.insert_entry(make_test_entry(1, 1, "", true));
    let new_ino = 100u64;
    assert!(fs.check_creation(1, "new_file.txt").is_ok());
    fs.create_commit(1, "new_file.txt", 0o644, 0o022, new_ino, UniqueId::from_u128(7), now());
    let created = fs.get_entry(new_ino).unwrap();
    assert_eq!(created.name(), "new_file.txt");
    assert!(matches!(created.state(), ItemState::Modified));
}

#[test]
fn test_create_file_has_modified_state() {
    let mut fs = new_fs();
    fs.insert_entry(make_test_entry(1, 1, "", true));
    fs.create_commit(1, "f", 0o644, 0o022, 100, UniqueId::from_u128(7), now());
    assert!(matches!(fs.get_entry(100).unwrap().state(), ItemState::Modified), "New files should have Modified state");
}

#[test]
fn test_create_file_has_no_remote_id() {
    let mut fs = new_fs();
    fs.insert_entry(make_test_entry(1, 1, "", true));
    fs.create_commit(1, "brand_new.txt", 0o644, 0o022, 100, UniqueId::from_u128(7), now());
    let created = fs.get_entry(100).unwrap();
    assert!(created.remote_id().is_none(), "New file should not have remote_id until synced");
}

#[test]
fn test_create_parent_must_exist() {
    let mut fs = new_fs();
    fs.insert_entry(make_test_entry(1, 1, "", true));
    assert!(fs.get_entry(999).is_none(), "create() would return ENOENT for non-existent parent");
    assert_eq!(fs.check_creation(999, "f").unwrap_err(), Errno::NotFound);
}

#[test]
fn test_create_parent_must_be_directory() {
    let mut fs = new_fs();
    fs.insert_entry(make_test_entry(1, 1, "", true));
    fs.insert_entry(make_entry_with_state(10, 1, "file.txt", false, ItemState::Hydrated, 100));
    assert_eq!(fs.get_entry(10).unwrap().kind(), FileKind::RegularFile, "create() would return ENOTDIR for file parent");
    assert_eq!(fs.check_creation(10, "f").unwrap_err(), Errno::NotDir);
}

#[test]
fn test_unlink_removes_from_inode_table() {
    let mut fs = new_fs();
    fs.insert_entry(make_test_entry(1, 1, "", true));
    fs.insert_entry(make_entry_with_state(10, 1, "to_delete.txt", false, ItemState::Hydrated, 100));
    assert_eq!(fs.inode_table().len(), 2);
    let plan = fs.unlink_check(1, "to_delete.txt").unwrap();
    fs.unlink_commit(plan.ino);
    assert_eq!(fs.inode_table().len(), 1);
    assert!(fs.get_entry(10).is_none());
}

#[test]
fn test_unlink_entry_must_exist() {
    let mut fs = new_fs();
    fs.insert_entry(make_test_entry(1, 1, "", true));
    assert!(fs.lookup_entry(1, "nonexistent.txt").is_none(), "unlink() would return ENOENT for non-existent file");
    assert_eq!(fs.unlink_check(1, "nonexistent.txt").unwrap_err(), Errno::NotFound);
}

#[test]
fn test_unlink_directory_returns_eisdir() {
    let mut fs = new_fs();
    fs.insert_entry(make_test_entry(1, 1, "", true));
    fs.insert_entry(make_test_entry(10, 1, "subdir", true));
    let entry = fs.lookup_entry(1, "subdir").unwrap();
    assert_eq!(entry.kind(), FileKind::Directory, "unlink() would return EISDIR for directories");
    assert_eq!(fs.unlink_check(1, "subdir").unwrap_err(), Errno::IsDir);
}

#[test]
fn test_rename_updates_name() {
    let mut fs = new_fs();
    fs.insert_entry(make_test_entry(1, 1, "", true));
    fs.insert_entry(make_entry_with_state(10, 1, "old_name.txt", false, ItemState::Hydrated, 100));
    assert_eq!(fs.get_entry(10).unwrap().name(), "old_name.txt");
    assert!(fs.lookup_entry(1, "old_name.txt").is_some());
    fs.rename(1, "old_name.txt", 1, "new_name.txt", now()).unwrap();
    assert!(fs.lookup_entry(1, "old_name.txt").is_none());
    assert_eq!(fs.get_entry(10).unwrap().name(), "new_name.txt");
}

#[test]
fn test_rename_updates_parent_ino() {
    let mut fs = new_fs();
    fs.insert_entry(make_test_entry(1, 1, "", true));
    fs.insert_entry(make_test_entry(10, 1, "dir1", true));
    fs.insert_entry(make_test_entry(20, 1, "dir2", true));
    fs.insert_entry(make_entry_with_state(100, 10, "file.txt", false, ItemState::Hydrated, 100));
    assert_eq!(fs.get_entry(100).unwrap().parent_ino().get(), 10);
    assert_eq!(fs.get_entry(20).unwrap().kind(), FileKind::Directory);
    fs.rename(10, "file.txt", 20, "file.txt", now()).unwrap();
    assert_eq!(fs.get_entry(100).unwrap().parent_ino().get(), 20);
}

#[test]
fn test_rename_source_must_exist() {
    let mut fs = new_fs();
    fs.insert_entry(make_test_entry(1, 1, "", true));
    assert!(fs.lookup_entry(1, "nonexistent.txt").is_none(), "rename() would return ENOENT for non-existent source");
    assert_eq!(fs.rename(1, "nonexistent.txt", 1, "x", now()).unwrap_err(), Errno::NotFound);
}

#[test]
fn test_rename_dest_parent_must_exist() {
    let mut fs = new_fs();
    fs.insert_entry(make_test_entry(1, 1, "", true));
    fs.insert_entry(make_entry_with_state(10, 1, "file.txt", false, ItemState::Hydrated, 100));
    assert!(fs.get_entry(999).is_none(), "rename() would return ENOENT for non-existent dest parent");
    assert_eq!(fs.rename(1, "file.txt", 999, "file.txt", now()).unwrap_err(), Errno::NotFound);
    assert_eq!(fs.lookup_entry(1, "file.txt").unwrap().ino().get(), 10);
    assert_eq!(fs.inode_table().len(), 2);
}

#[test]
fn test_rename_overwrites_existing_file() {
    let mut fs = new_fs();
    fs.insert_entry(make_test_entry(1, 1, "", true));
    fs.insert_entry(make_entry_with_state(10, 1, "source.txt", false, ItemState::Hydrated, 100));
    fs.insert_entry(make_entry_with_state(20, 1, "target.txt", false, ItemState::Hydrated, 200));
    assert!(fs.lookup_entry(1, "source.txt").is_some());
    assert!(fs.lookup_entry(1, "target.txt").is_some());
    fs.rename(1, "source.txt", 1, "target.txt", now()).unwrap();
    assert!(fs.lookup_entry(1, "source.txt").is_none());
    assert_eq!(fs.lookup_entry(1, "target.txt").unwrap().ino().get(), 10);
    assert!(fs.get_entry(20).is_none());
}

#[test]
fn test_rename_transitions_to_modified() {
    let mut fs = new_fs();
    fs.insert_entry(make_test_entry(1, 1, "", true));
    fs.insert_entry(make_entry_with_state(10, 1, "a.txt", false, ItemState::Hydrated, 100));
    fs.rename(1, "a.txt", 1, "b.txt", now()).unwrap();
    assert_eq!(fs.get_entry(10).unwrap().state(), &ItemState::Modified);
}

#[test]
fn test_rename_dest_parent_must_be_directory() {
    let mut fs = new_fs();
    fs.insert_entry(make_test_entry(1, 1, "", true));
    fs.insert_entry(make_entry_with_state(10, 1, "file.txt", false, ItemState::Hydrated, 100));
    fs.insert_entry(make_entry_with_state(11, 1, "other.txt", false, ItemState::Hydrated, 100));
    assert_eq!(fs.rename(1, "file.txt", 11, "file.txt", now()).unwrap_err(), Errno::NotDir);
    assert_eq!(fs.get_entry(10).unwrap().parent_ino().get(), 1);
    assert_eq!(fs.get_entry(10).unwrap().state(), &ItemState::Hydrated);
}
