use passfs::abi;
use passfs::errno::Errno;
use passfs::handle_table::{HandleRecord, HandleTable};
use passfs::object_table::ObjectTable;

#[test]
fn test_resolve_and_release_lifecycle() {
    let mut t = ObjectTable::new(1);
    let mode = abi::S_IFDIR | 0o755;

    // First reference: present with the first identifier.
    let (id, existing) = t.resolve(3, mode, 7, 100);
    assert_eq!(id, 1);
    assert!(!existing);
    assert!(t.contains(id));

    // Second resolve of the same identity bumps the count, same record.
    let (id2, existing2) = t.resolve(9, mode, 7, 100);
    assert_eq!(id2, id);
    assert!(existing2);
    let rec = t.get(id).unwrap();
    assert_eq!(rec.refcount, 2);
    assert_eq!(rec.anchor_fd, 3);

    // Releases: present exactly while resolves exceed releases.
    assert!(t.release(id, 1).is_none());
    assert!(t.contains(id));
    let removed = t.release(id, 1).expect("removal at the transition to zero");
    assert_eq!(removed.anchor_fd, 3);
    assert!(!t.contains(id));

    // Never twice for the same decrement: a further release is ignored.
    assert!(t.release(id, 1).is_none());
}

#[test]
fn test_release_clamps_at_zero() {
    let mut t = ObjectTable::new(1);
    let (id, _) = t.resolve(4, abi::S_IFREG | 0o644, 7, 200);
    // A decrement larger than the count removes the record once.
    let removed = t.release(id, 5).expect("clamped removal");
    assert_eq!(removed.ino, 200);
    assert!(!t.contains(id));
    assert_eq!(t.len(), 0);
}

#[test]
fn test_stale_identifier_is_bad_descriptor() {
    let t = ObjectTable::new(1);
    assert_eq!(t.get(42).unwrap_err(), Errno::BadDescriptor);
}

#[test]
fn test_identity_keeps_identifier() {
    let mut t = ObjectTable::new(1);
    let mode = abi::S_IFREG | 0o644;

    // Creation resolves the fresh entry once.
    let (created, _) = t.resolve(5, mode, 7, 300);

    // Resolving the same on-disk identity — the entry by its name, the
    // entry after a rename, or a new hard link to it — answers the same
    // identifier.
    let (after_lookup, existing) = t.resolve(6, mode, 7, 300);
    assert_eq!(after_lookup, created);
    assert!(existing);
    let (after_link, _) = t.resolve(8, mode, 7, 300);
    assert_eq!(after_link, created);
    assert_eq!(t.lookup_identity(7, 300), Some(created));

    // A different identity gets a different identifier.
    let (other, fresh) = t.resolve(5, mode, 7, 301);
    assert!(!fresh);
    assert_ne!(other, created);

    // Dropping the last reference unregisters the identity; resolving it
    // again starts a new lifetime under a new identifier.
    t.release(created, 3).expect("all three references released");
    assert_eq!(t.lookup_identity(7, 300), None);
    let (reborn, _) = t.resolve(5, mode, 7, 300);
    assert_ne!(reborn, created);
}

#[test]
fn test_root_installation() {
    let mut t = ObjectTable::new(2);
    t.install_root(3, abi::S_IFDIR | 0o755, 9, 90);
    let rec = t.get(abi::ROOT_OBJECT).unwrap();
    assert_eq!(rec.anchor_fd, 3);
    // Two references: a stray release notification does not drop the root.
    assert_eq!(rec.refcount, 2);
    assert!(t.release(abi::ROOT_OBJECT, 1).is_none());
    assert!(t.contains(abi::ROOT_OBJECT));
    // Resolving the root's identity (".." walks, aliases) answers the
    // reserved identifier.
    let (id, existing) = t.resolve(7, abi::S_IFDIR | 0o755, 9, 90);
    assert_eq!(id, abi::ROOT_OBJECT);
    assert!(existing);
}

#[test]
fn test_clear_empties_table() {
    let mut t = ObjectTable::new(1);
    t.resolve(3, abi::S_IFDIR | 0o755, 1, 1);
    t.resolve(3, abi::S_IFREG | 0o644, 1, 2);
    assert_eq!(t.len(), 2);
    t.clear();
    assert_eq!(t.len(), 0);
    assert_eq!(t.lookup_identity(1, 1), None);
}

#[test]
fn test_handle_identifiers_never_reused() {
    let mut h = HandleTable::new();
    let a = h.insert(HandleRecord { object: 10, fd: 3, flags: 0 });
    let b = h.insert(HandleRecord { object: 10, fd: 4, flags: 0 });
    assert_eq!(a, 1);
    assert_eq!(b, 2);
    h.remove(b, 10).unwrap();
    let c = h.insert(HandleRecord { object: 11, fd: 5, flags: 0 });
    assert_eq!(c, 3);
}

#[test]
fn test_handle_ownership_checked() {
    let mut h = HandleTable::new();
    let a = h.insert(HandleRecord { object: 10, fd: 3, flags: 0 });
    // The right owner reads the record.
    assert_eq!(h.get(a, 10).unwrap().fd, 3);
    // A claim under another object is cross-object handle confusion.
    assert_eq!(h.get(a, 11).unwrap_err(), Errno::BadDescriptor);
    assert_eq!(h.remove(a, 11).unwrap_err(), Errno::BadDescriptor);
    assert_eq!(h.len(), 1);
    // Removal verifies ownership too, and hands the record back.
    assert_eq!(h.remove(a, 10).unwrap().fd, 3);
    assert_eq!(h.remove(a, 10).unwrap_err(), Errno::BadDescriptor);
}

#[test]
fn test_handle_flags_remembered() {
    let mut h = HandleTable::new();
    let a = h.insert(HandleRecord { object: 1, fd: 3, flags: 0 });
    assert!(h.set_flags(a, 0o4000));
    assert_eq!(h.get(a, 1).unwrap().flags, 0o4000);
    assert!(!h.set_flags(99, 0));
}
