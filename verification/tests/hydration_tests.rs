use std::collections::HashSet;
use std::time::SystemTime;

use lnxdrive::error::FuseError;
use lnxdrive::hydration::{
    chunk_length, completion_state, pin_action, plan_directory, progress_percent, range_ready, required_progress,
    should_store_progress, unpin_changes, use_chunked_download, HydrationPriority, HydrationRequest, PinAction,
    DOWNLOAD_CHUNK_SIZE,
};
use lnxdrive::inode::InodeTable;
use lnxdrive::inode_entry::{InodeEntry, InodeNumber};
use lnxdrive::state::{FileKind, ItemState, UniqueId};

fn create_test_request(total_size: u64, priority: HydrationPriority) -> HydrationRequest {
    let (request, _rx) = HydrationRequest::new(
        42,
        UniqueId::from_u128(1),
        "ABC123DEF456".to_string(),
        total_size,
        "/tmp/cache/test_file.dat".to_string(),
        priority,
    );
    request
}

#[test]
fn test_priority_ordering() {
    assert!(HydrationPriority::UserOpen > HydrationPriority::PinRequest);
    assert!(HydrationPriority::PinRequest > HydrationPriority::Prefetch);
    assert!(HydrationPriority::UserOpen > HydrationPriority::Prefetch);
}

#[test]
fn test_priority_equality() {
    assert_eq!(HydrationPriority::UserOpen, HydrationPriority::UserOpen);
    assert_eq!(HydrationPriority::PinRequest, HydrationPriority::PinRequest);
    assert_eq!(HydrationPriority::Prefetch, HydrationPriority::Prefetch);
}

#[test]
fn test_priority_values() {
    assert_eq!(HydrationPriority::Prefetch as u8, 0);
    assert_eq!(HydrationPriority::PinRequest as u8, 1);
    assert_eq!(HydrationPriority::UserOpen as u8, 2);
}

#[test]
fn test_priority_sorting() {
    let mut priorities = vec![
        HydrationPriority::Prefetch,
        HydrationPriority::UserOpen,
        HydrationPriority::PinRequest,
        HydrationPriority::Prefetch,
    ];
    priorities.sort();
    assert_eq!(
        priorities,
        vec![
            HydrationPriority::Prefetch,
            HydrationPriority::Prefetch,
            HydrationPriority::PinRequest,
            HydrationPriority::UserOpen,
        ]
    );
}

#[test]
fn test_priority_clone() {
    let priority = HydrationPriority::UserOpen;
    let cloned = priority;
    assert_eq!(priority, cloned);
}

#[test]
fn test_priority_debug() {
    let debug_str = format!("{:?}", HydrationPriority::UserOpen);
    assert_eq!(debug_str, "UserOpen");
}

#[test]
fn test_priority_hash() {
    let mut set = HashSet::new();
    set.insert(HydrationPriority::Prefetch);
    set.insert(HydrationPriority::PinRequest);
    set.insert(HydrationPriority::UserOpen);
    assert_eq!(set.len(), 3);
    set.insert(HydrationPriority::UserOpen);
    assert_eq!(set.len(), 3);
}

#[test]
fn test_priority_levels_match_order() {
    assert_eq!(HydrationPriority::Prefetch.level(), 0);
    assert_eq!(HydrationPriority::UserOpen.level(), 2);
    assert!(HydrationPriority::UserOpen.is_higher_than(&HydrationPriority::PinRequest));
    assert!(!HydrationPriority::Prefetch.is_higher_than(&HydrationPriority::Prefetch));
}

#[test]
fn test_new_request() {
    let item_id = UniqueId::from_u128(99);
    let cache_path = "/tmp/cache/test_file.dat".to_string();
    let (request, rx) = HydrationRequest::new(
        42,
        item_id,
        "ABC123DEF456".to_string(),
        1000,
        cache_path.clone(),
        HydrationPriority::UserOpen,
    );
    assert_eq!(request.ino, 42);
    assert_eq!(request.total_size, 1000);
    assert_eq!(request.downloaded(), 0);
    assert_eq!(request.cache_path, cache_path);
    assert_eq!(request.priority, HydrationPriority::UserOpen);
    assert_eq!(*rx.borrow(), 0);
}

#[test]
fn test_progress_calculation() {
    let mut request = create_test_request(1000, HydrationPriority::UserOpen);
    assert_eq!(request.progress(), 0);
    request.add_downloaded(250);
    assert_eq!(request.progress(), 25);
    request.add_downloaded(250);
    assert_eq!(request.progress(), 50);
    request.add_downloaded(500);
    assert_eq!(request.progress(), 100);
}

#[test]
fn test_progress_empty_file() {
    let request = create_test_request(0, HydrationPriority::Prefetch);
    assert_eq!(request.progress(), 100);
}

#[test]
fn test_progress_capped_at_100() {
    let mut request = create_test_request(100, HydrationPriority::PinRequest);
    request.add_downloaded(200);
    assert_eq!(request.progress(), 100);
}

#[test]
fn test_downloaded_tracking() {
    let mut request = create_test_request(1000, HydrationPriority::UserOpen);
    assert_eq!(request.downloaded(), 0);
    request.add_downloaded(100);
    assert_eq!(request.downloaded(), 100);
    request.add_downloaded(200);
    assert_eq!(request.downloaded(), 300);
}

#[test]
fn test_mark_complete() {
    let (mut request, rx) = HydrationRequest::new(
        42,
        UniqueId::from_u128(5),
        "ABC123DEF456".to_string(),
        1000,
        "/tmp/cache/test_file.dat".to_string(),
        HydrationPriority::UserOpen,
    );
    request.add_downloaded(500);
    assert_eq!(request.progress(), 50);
    request.mark_complete();
    assert_eq!(request.downloaded(), 1000);
    assert_eq!(request.progress(), 100);
    assert_eq!(*rx.borrow(), 100);
}

#[test]
fn test_progress_updates_via_channel() {
    let (mut request, rx) = HydrationRequest::new(
        42,
        UniqueId::from_u128(5),
        "ABC123DEF456".to_string(),
        100,
        "/tmp/cache/test_file.dat".to_string(),
        HydrationPriority::UserOpen,
    );
    assert_eq!(*rx.borrow(), 0);
    request.add_downloaded(50);
    assert_eq!(*rx.borrow(), 50);
    request.add_downloaded(30);
    assert_eq!(*rx.borrow(), 80);
    request.add_downloaded(20);
    assert_eq!(*rx.borrow(), 100);
}

#[test]
fn test_subscribe_multiple_receivers() {
    let (mut request, rx1) = HydrationRequest::new(
        42,
        UniqueId::from_u128(5),
        "ABC123DEF456".to_string(),
        100,
        "/tmp/cache/test_file.dat".to_string(),
        HydrationPriority::UserOpen,
    );
    let rx2 = request.subscribe();
    let rx3 = request.subscribe();
    request.add_downloaded(25);
    assert_eq!(*rx1.borrow(), 25);
    assert_eq!(*rx2.borrow(), 25);
    assert_eq!(*rx3.borrow(), 25);
}

#[test]
fn test_created_at_is_recent() {
    let before = SystemTime::now();
    let request = create_test_request(1000, HydrationPriority::UserOpen);
    let after = SystemTime::now();
    assert!(request.created_at >= before);
    assert!(request.created_at <= after);
}

#[test]
fn test_atomic_operations_are_consistent() {
    let mut request = create_test_request(10000, HydrationPriority::UserOpen);
    for _ in 0..100 {
        request.add_downloaded(100);
    }
    assert_eq!(request.downloaded(), 10000);
    assert_eq!(request.progress(), 100);
}

#[test]
fn test_pin_on_pinned_is_idempotent() {
    let state = ItemState::Pinned;
    assert!(matches!(state, ItemState::Pinned));
    assert_eq!(pin_action(&state), Ok(PinAction::AlreadyPinned));
}

#[test]
fn test_pin_on_hydrated_transitions_to_pinned() {
    let hydrated = ItemState::Hydrated;
    let target = ItemState::Pinned;
    assert!(matches!(hydrated, ItemState::Hydrated));
    assert!(matches!(target, ItemState::Pinned));
    assert_eq!(pin_action(&hydrated), Ok(PinAction::MarkPinned));
}

#[test]
fn test_pin_on_online_requires_hydration() {
    let online = ItemState::Online;
    assert!(matches!(online, ItemState::Online));
    assert_eq!(pin_action(&online), Ok(PinAction::HydrateThenPin));
}

#[test]
fn test_unpin_transitions_to_hydrated() {
    let pinned = ItemState::Pinned;
    let target = ItemState::Hydrated;
    assert!(matches!(pinned, ItemState::Pinned));
    assert!(matches!(target, ItemState::Hydrated));
    assert!(unpin_changes(&pinned));
}

#[test]
fn test_unpin_on_hydrated_is_noop() {
    let hydrated = ItemState::Hydrated;
    assert!(matches!(hydrated, ItemState::Hydrated));
    assert!(!unpin_changes(&hydrated));
}

#[test]
fn test_unpin_on_online_is_noop() {
    let online = ItemState::Online;
    assert!(matches!(online, ItemState::Online));
    assert!(!unpin_changes(&online));
}

#[test]
fn test_pin_priority_is_pin_request() {
    let priority = HydrationPriority::PinRequest;
    assert_eq!(priority as u8, 1);
    assert!(priority > HydrationPriority::Prefetch);
    assert!(priority < HydrationPriority::UserOpen);
}

#[test]
fn test_pinned_files_are_not_dehydratable() {
    let pinned = ItemState::Pinned;
    assert!(!pinned.can_dehydrate());
}

#[test]
fn test_hydrated_files_are_dehydratable() {
    let hydrated = ItemState::Hydrated;
    assert!(hydrated.can_dehydrate());
}

#[test]
fn test_modified_files_are_not_dehydratable() {
    let modified = ItemState::Modified;
    assert!(!modified.can_dehydrate());
}

#[test]
fn test_pin_actions_for_other_states() {
    assert_eq!(pin_action(&ItemState::Hydrating), Ok(PinAction::WaitThenPin));
    assert_eq!(pin_action(&ItemState::Modified), Ok(PinAction::MarkPinned));
    assert_eq!(
        pin_action(&ItemState::Deleted),
        Err(FuseError::InvalidArgument("Cannot pin file in state Deleted".to_string()))
    );
    assert_eq!(
        pin_action(&ItemState::Error("boom".to_string())),
        Err(FuseError::InvalidArgument("Cannot pin file in state Error(\"boom\")".to_string()))
    );
}

#[test]
fn test_progress_percent_values() {
    assert_eq!(progress_percent(0, 0), 100);
    assert_eq!(progress_percent(1000, 333), 33);
    assert_eq!(progress_percent(3, 2), 66);
    assert_eq!(progress_percent(10, 50), 100);
}

#[test]
fn test_required_progress_for_ranges() {
    assert_eq!(required_progress(0, 100, 1000), 10);
    assert_eq!(required_progress(900, 500, 1000), 100);
    assert_eq!(required_progress(0, 0, 0), 100);
    assert!(range_ready(10, 10));
    assert!(!range_ready(9, 10));
}

#[test]
fn test_download_strategy() {
    assert!(!use_chunked_download(100 * 1024 * 1024 - 1));
    assert!(use_chunked_download(100 * 1024 * 1024));
    assert_eq!(chunk_length(25 * 1024 * 1024, 0), DOWNLOAD_CHUNK_SIZE);
    assert_eq!(chunk_length(25 * 1024 * 1024, 20 * 1024 * 1024), 5 * 1024 * 1024);
    assert!(should_store_progress(5, 0));
    assert!(!should_store_progress(4, 0));
    assert!(should_store_progress(100, 99));
}

#[test]
fn test_completion_state() {
    assert_eq!(completion_state(&Ok(())), ItemState::Hydrated);
    assert_eq!(
        completion_state(&Err(FuseError::HydrationFailed("Cancelled".to_string()))),
        ItemState::Error("Hydration failed: Cancelled".to_string())
    );
}

#[test]
fn test_plan_directory_splits_children() {
    let now = SystemTime::now();
    let mk = |ino: u64, parent: u64, kind: FileKind, state: ItemState, remote: Option<&str>| {
        InodeEntry::new(
            InodeNumber::new(ino),
            UniqueId::from_u128(ino as u128),
            remote.map(|s| s.to_string()),
            InodeNumber::new(parent),
            format!("n{}", ino),
            kind,
            10,
            0o644,
            now,
            now,
            now,
            1,
            state,
        )
    };
    let mut table = InodeTable::new();
    table.insert(mk(10, 1, FileKind::Directory, ItemState::Hydrated, None));
    table.insert(mk(11, 10, FileKind::Directory, ItemState::Hydrated, None));
    table.insert(mk(12, 10, FileKind::RegularFile, ItemState::Online, Some("R12")));
    table.insert(mk(13, 10, FileKind::RegularFile, ItemState::Pinned, None));
    table.insert(mk(14, 11, FileKind::RegularFile, ItemState::Pinned, Some("R14")));

    let pin = plan_directory(&table, 10, true);
    assert_eq!(pin.subdirs, vec![11]);
    let pin_files: Vec<u64> = pin.files.iter().map(|e| e.ino.get()).collect();
    assert_eq!(pin_files, vec![12]);

    let unpin = plan_directory(&table, 10, false);
    assert_eq!(unpin.subdirs, vec![11]);
    let unpin_files: Vec<u64> = unpin.files.iter().map(|e| e.ino.get()).collect();
    assert_eq!(unpin_files, vec![13]);

    table.insert(mk(1, 1, FileKind::Directory, ItemState::Hydrated, None));
    let root = plan_directory(&table, 1, true);
    assert_eq!(root.subdirs, vec![10]);
}

fn request_for(remote: &str, total_size: u64, path: &str) -> (HydrationRequest, tokio::sync::watch::Receiver<u8>) {
    HydrationRequest::new(
        42,
        UniqueId::from_u128(9),
        remote.to_string(),
        total_size,
        path.to_string(),
        HydrationPriority::UserOpen,
    )
}

#[test]
fn test_progress_returns_correct_percentage() {
    let (mut request, _rx) = request_for("test_remote_id", 1000, "/tmp/cache/test.dat");
    request.add_downloaded(500);
    let active: dashmap::DashMap<u64, HydrationRequest> = dashmap::DashMap::new();
    active.insert(42, request);
    let progress = active.get(&42).map(|r| r.progress());
    assert_eq!(progress, Some(50));
}

#[test]
fn test_deduplication_preserves_first_entry() {
    let active: dashmap::DashMap<u64, HydrationRequest> = dashmap::DashMap::new();
    let (request1, _rx1) = request_for("remote_1", 1000, "/tmp/cache/test1.dat");
    active.insert(42, request1);
    let existing = active.get(&42);
    assert!(existing.is_some());
    assert_eq!(existing.unwrap().total_size, 1000);
}

#[test]
fn test_multiple_subscribers_receive_same_progress() {
    let (mut request, rx1) = request_for("multi_sub", 100, "/tmp/cache/multi.dat");
    let rx2 = request.subscribe();
    let rx3 = request.subscribe();
    request.add_downloaded(50);
    assert_eq!(*rx1.borrow(), 50);
    assert_eq!(*rx2.borrow(), 50);
    assert_eq!(*rx3.borrow(), 50);
}

#[test]
fn test_progress_updates_are_atomic() {
    let (mut request, _rx) = request_for("atomic_test", 1000, "/tmp/cache/atomic.dat");
    for i in 0..100 {
        request.add_downloaded(10);
        let downloaded = request.downloaded();
        let expected = (i + 1) * 10;
        assert_eq!(downloaded, expected);
    }
    assert_eq!(request.downloaded(), 1000);
    assert_eq!(request.progress(), 100);
}

#[test]
fn test_subscribe_returns_working_receiver() {
    let active: dashmap::DashMap<u64, HydrationRequest> = dashmap::DashMap::new();
    let (request, _original_rx) = request_for("subscribe_test", 100, "/tmp/cache/subscribe.dat");
    active.insert(42, request);
    let subscribed_rx = active.get(&42).map(|r| r.subscribe());
    assert!(subscribed_rx.is_some());
    let rx = subscribed_rx.unwrap();
    active.get_mut(&42).unwrap().add_downloaded(75);
    assert_eq!(*rx.borrow(), 75);
}

#[test]
fn test_required_progress_rounds_up() {
    assert_eq!(required_progress(0, 5, 1000), 1);
    assert!(!range_ready(0, required_progress(0, 5, 1000)));
    assert_eq!(required_progress(0, 10, 1000), 1);
    assert_eq!(required_progress(0, 11, 1000), 2);
    assert_eq!(required_progress(995, 4, 1000), 100);
}

#[test]
fn test_published_progress_follows_downloads() {
    let (mut request, rx) = request_for("published", 200, "/tmp/cache/p.dat");
    assert_eq!(request.published, 0);
    request.add_downloaded(50);
    assert_eq!(request.published, 25);
    assert_eq!(*rx.borrow(), 25);
    request.mark_complete();
    assert_eq!(request.published, 100);
    assert_eq!(*rx.borrow(), 100);
}
