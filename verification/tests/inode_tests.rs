use std::time::SystemTime;

use lnxdrive::inode::InodeTable;
use lnxdrive::inode_entry::{InodeEntry, InodeNumber};
use lnxdrive::state::{FileKind, ItemState, UniqueId};

fn make_test_entry_with(ino: u64, parent_ino: u64, name: &str, is_dir: bool, item_id: UniqueId) -> InodeEntry {
    InodeEntry::new(
        InodeNumber::new(ino),
        item_id,
        Some(format!("remote_{}", ino)),
        InodeNumber::new(parent_ino),
        name.to_string(),
        if is_dir { FileKind::Directory } else { FileKind::RegularFile },
        1024,
        if is_dir { 0o755 } else { 0o644 },
        SystemTime::now(),
        SystemTime::now(),
        SystemTime::now(),
        1,
        ItemState::Online,
    )
}

fn make_test_entry(ino: u64, parent_ino: u64, name: &str, is_dir: bool) -> InodeEntry {
    make_test_entry_with(ino, parent_ino, name, is_dir, UniqueId::from_u128(ino as u128 * 7 + 3))
}

fn make_entry_with_id(ino: u64, parent_ino: u64, name: &str, item_id: UniqueId) -> InodeEntry {
    make_test_entry_with(ino, parent_ino, name, false, item_id)
}

#[test]
fn test_insert_and_get() {
    let mut table = InodeTable::new();
    let entry = make_test_entry(42, 1, "test.txt", false);
    let item_id = *entry.item_id();

    table.insert(entry);

    let retrieved = table.get(42).expect("Entry should exist");
    assert_eq!(retrieved.ino().get(), 42);
    assert_eq!(retrieved.name(), "test.txt");
    assert_eq!(*retrieved.item_id(), item_id);

    assert!(table.get(999).is_none());
}

#[test]
fn test_get_by_item_id() {
    let mut table = InodeTable::new();
    let item_id = UniqueId::from_u128(0xabc);
    let entry = make_entry_with_id(42, 1, "test.txt", item_id);

    table.insert(entry);

    let ino = table.get_by_item_id(&item_id).expect("Item should exist");
    assert_eq!(ino, 42);

    let random_id = UniqueId::from_u128(0xdef);
    assert!(table.get_by_item_id(&random_id).is_none());
}

#[test]
fn test_remove() {
    let mut table = InodeTable::new();
    let item_id = UniqueId::from_u128(0xabc);
    let entry = make_entry_with_id(42, 1, "test.txt", item_id);

    table.insert(entry);

    assert!(table.get(42).is_some());
    assert!(table.get_by_item_id(&item_id).is_some());

    let removed = table.remove(42).expect("Entry should be removed");
    assert_eq!(removed.ino().get(), 42);

    assert!(table.get(42).is_none());
    assert!(table.get_by_item_id(&item_id).is_none());

    assert!(table.remove(999).is_none());
}

#[test]
fn test_children() {
    let mut table = InodeTable::new();
    table.insert(make_test_entry(10, 1, "parent", true));
    table.insert(make_test_entry(20, 10, "child1.txt", false));
    table.insert(make_test_entry(21, 10, "child2.txt", false));
    table.insert(make_test_entry(22, 10, "subdir", true));
    table.insert(make_test_entry(30, 1, "other.txt", false));

    let children = table.children(10);

    assert_eq!(children.len(), 3);
    let names: Vec<String> = children.iter().map(|e| e.name().to_string()).collect();
    assert!(names.contains(&"child1.txt".to_string()));
    assert!(names.contains(&"child2.txt".to_string()));
    assert!(names.contains(&"subdir".to_string()));
    assert!(!names.contains(&"other.txt".to_string()));

    let no_children = table.children(999);
    assert_eq!(no_children.len(), 0);
}

#[test]
fn test_lookup() {
    let mut table = InodeTable::new();
    table.insert(make_test_entry(10, 1, "parent", true));
    table.insert(make_test_entry(20, 10, "file1.txt", false));
    table.insert(make_test_entry(21, 10, "file2.txt", false));

    let found = table.lookup(10, "file1.txt").expect("Should find entry");
    assert_eq!(found.ino().get(), 20);
    assert_eq!(found.name(), "file1.txt");

    assert!(table.lookup(999, "file1.txt").is_none());
    assert!(table.lookup(10, "nonexistent.txt").is_none());
    assert!(table.lookup(999, "nonexistent.txt").is_none());
}

#[test]
fn test_len_and_is_empty() {
    let mut table = InodeTable::new();

    assert!(table.is_empty());
    assert_eq!(table.len(), 0);

    table.insert(make_test_entry(10, 1, "file1.txt", false));
    assert!(!table.is_empty());
    assert_eq!(table.len(), 1);

    table.insert(make_test_entry(11, 1, "file2.txt", false));
    assert_eq!(table.len(), 2);

    table.remove(10);
    assert_eq!(table.len(), 1);

    table.remove(11);
    assert!(table.is_empty());
    assert_eq!(table.len(), 0);
}

#[test]
fn test_bidirectional_mapping_consistency() {
    let mut table = InodeTable::new();
    let ids: Vec<UniqueId> = (0..10u128).map(|i| UniqueId::from_u128(1000 + i)).collect();
    for (i, id) in ids.iter().enumerate() {
        table.insert(make_entry_with_id(100 + i as u64, 1, &format!("f{}", i), *id));
    }
    for (i, id) in ids.iter().enumerate() {
        let ino = table.get_by_item_id(id).expect("mapped");
        assert_eq!(ino, 100 + i as u64);
        let entry = table.get(ino).expect("present");
        assert_eq!(*entry.item_id(), *id);
    }
}

#[test]
fn test_default_trait() {
    let table = InodeTable::default();
    assert!(table.is_empty());
    assert_eq!(table.len(), 0);
}

#[test]
fn test_inode_number_new_and_get() {
    let n = InodeNumber::new(77);
    assert_eq!(n.get(), 77);
    assert_eq!(InodeNumber::root().get(), 1);
    assert_eq!(n.to_decimal(), "77");
}

#[test]
fn test_entry_counters_and_expiry() {
    let mut e = make_test_entry(5, 1, "a", false);
    assert!(e.is_expired());
    e.increment_lookup();
    e.increment_lookup();
    assert_eq!(e.lookup_count(), 2);
    assert!(!e.is_expired());
    assert_eq!(e.decrement_lookup(), 1);
    assert_eq!(e.decrement_lookup_by(1), 0);
    e.increment_open_handles();
    assert!(!e.is_expired());
    assert_eq!(e.decrement_open_handles(), 0);
    assert!(e.is_expired());
}

#[test]
fn test_entry_attributes() {
    let e = make_test_entry(5, 1, "a", false);
    let attr = e.to_file_attr();
    assert_eq!(attr.ino, 5);
    assert_eq!(attr.size, 1024);
    assert_eq!(attr.blocks, 2);
    assert_eq!(attr.perm, 0o644);
    assert_eq!(attr.blksize, 4096);
    assert_eq!(attr.crtime, e.ctime());
    let mut odd = make_test_entry(6, 1, "b", false);
    odd.size = 513;
    assert_eq!(odd.blocks(), 2);
    odd.size = 0;
    assert_eq!(odd.blocks(), 0);
}

#[test]
fn test_reinsert_replaces_entry() {
    let mut table = InodeTable::new();
    table.insert(make_test_entry(10, 1, "old", false));
    table.insert(make_test_entry(10, 1, "new", false));
    assert_eq!(table.len(), 1);
    assert_eq!(table.get(10).unwrap().name(), "new");
}

#[test]
fn test_inode_number_conversions_and_order() {
    let n = InodeNumber::from(77u64);
    assert_eq!(n, InodeNumber::new(77));
    assert_eq!(u64::from(n), 77);
    assert_eq!(InodeNumber::new(77).get(), 77);
    assert_eq!(InodeNumber::root().get(), 1);
    assert!(InodeNumber::new(3) < InodeNumber::new(4));
    assert!(InodeNumber::new(5) > InodeNumber::new(4));
    assert_eq!(InodeNumber::new(9).partial_cmp(&InodeNumber::new(9)), Some(std::cmp::Ordering::Equal));
    let mut v = vec![InodeNumber::new(9), InodeNumber::new(2), InodeNumber::new(5)];
    v.sort();
    assert_eq!(v, vec![InodeNumber::new(2), InodeNumber::new(5), InodeNumber::new(9)]);
    assert_eq!(InodeNumber::new(1234).to_decimal(), "1234");
}
