use passfs::abi;
use passfs::engine::{DataSource, DescriptorRoute, FsCore};
use passfs::errno::Errno;
use passfs::policy::{seal_size_check, SealedSizeOp};
use passfs::session::{CachePolicy, Config};
use passfs::setattr::{AttrValues, TimeUpdate};

fn test_config() -> Config {
    Config {
        do_import: true,
        writeback: true,
        no_open: false,
        no_opendir: false,
        no_readdir: false,
        killpriv_v2: true,
        xattr: true,
        allow_direct_io: false,
        cache_policy: CachePolicy::Auto,
        attr_timeout_ns: 1_000_000_000,
    }
}

fn all_caps() -> u64 {
    abi::CAP_ATOMIC_O_TRUNC | abi::CAP_DO_READDIRPLUS | abi::CAP_READDIRPLUS_AUTO
        | abi::CAP_WRITEBACK_CACHE | abi::CAP_ZERO_MESSAGE_OPEN | abi::CAP_ZERO_MESSAGE_OPENDIR
        | abi::CAP_HANDLE_KILLPRIV_V2 | abi::CAP_PERFILE_DAX
}

// A core negotiated like a stateful session with writeback and privilege
// clearing, with the root directory and one child file resolved.
fn ready_core() -> (FsCore, u64, u64) {
    let mut core = FsCore::new(test_config());
    let caps = abi::CAP_WRITEBACK_CACHE | abi::CAP_HANDLE_KILLPRIV_V2 | abi::CAP_DO_READDIRPLUS;
    core.negotiate(caps);
    core.objects.install_root(3, abi::S_IFDIR | 0o755, 1, 100);
    let root = abi::ROOT_OBJECT;
    let (file, _) = core.objects.resolve(4, abi::S_IFREG | 0o644, 1, 200);
    assert_ne!(file, root);
    (core, root, file)
}

#[test]
fn test_capability_negotiation() {
    let mut core = FsCore::new(test_config());
    let opts = core.negotiate(all_caps());
    // Granted: what the configuration asks for among what was offered.
    assert_ne!(opts & abi::CAP_WRITEBACK_CACHE, 0);
    assert_ne!(opts & abi::CAP_HANDLE_KILLPRIV_V2, 0);
    assert_ne!(opts & abi::CAP_DO_READDIRPLUS, 0);
    assert_ne!(opts & abi::CAP_READDIRPLUS_AUTO, 0);
    assert_ne!(opts & abi::CAP_PERFILE_DAX, 0);
    // Not asked for: stateless opens stay off.
    assert_eq!(opts & abi::CAP_ZERO_MESSAGE_OPEN, 0);
    assert_eq!(opts & abi::CAP_ZERO_MESSAGE_OPENDIR, 0);
    assert!(core.session.writeback);
    assert!(core.session.killpriv_v2);
    assert!(!core.session.no_open);
}

#[test]
fn test_negotiating_stateless_opens_drops_atomic_truncation() {
    let cfg = Config { no_open: true, no_opendir: true, ..test_config() };
    let mut core = FsCore::new(cfg);
    let opts = core.negotiate(all_caps());
    assert_ne!(opts & abi::CAP_ZERO_MESSAGE_OPEN, 0);
    assert_ne!(opts & abi::CAP_ZERO_MESSAGE_OPENDIR, 0);
    assert_eq!(opts & abi::CAP_ATOMIC_O_TRUNC, 0);
    assert!(core.session.no_open);
    assert!(core.session.no_opendir);
    // Stateless sessions refuse the stateful calls outright.
    assert_eq!(core.plan_open(1, 0, 0).unwrap_err(), Errno::NotSupported);
    assert_eq!(core.plan_opendir(1, 0).unwrap_err(), Errno::NotSupported);
    assert_eq!(core.release_handle(1, 1).unwrap_err(), Errno::NotSupported);
    assert_eq!(core.release_dir_handle(1, 1).unwrap_err(), Errno::NotSupported);
    assert_eq!(core.plan_flush(1, 1).unwrap_err(), Errno::NotSupported);
}

#[test]
fn test_device_node_cannot_be_opened() {
    // A node created with permissive mode bits through the node-creation
    // path is still refused by the node-type gate immediately afterwards.
    let (mut core, root, _) = ready_core();
    let (fd, mode) = core
        .plan_mknod(root, b"test_device", abi::S_IFBLK | 0o777, 0)
        .unwrap();
    assert_eq!(fd, 3);
    assert_eq!(mode, abi::S_IFBLK | 0o777);
    let (dev, _) = core.objects.resolve(5, abi::S_IFBLK | 0o777, 1, 300);
    assert_eq!(
        core.plan_open(dev, abi::O_RDWR as u32, 0).unwrap_err(),
        Errno::BadDescriptor
    );
    // The same gate guards stateless data access and reopen-for-truncate.
    assert_eq!(
        core.acquire_data(0, dev, abi::O_RDONLY).unwrap_err(),
        Errno::BadDescriptor
    );
}

#[test]
fn test_open_and_release_handles() {
    let (mut core, _, file) = ready_core();
    let plan = core.plan_open(file, abi::O_WRONLY as u32, 0).unwrap();
    // Writeback caching widens a write-only open; close-on-exec always.
    assert_eq!(plan.open_flags, abi::O_RDWR | abi::O_CLOEXEC);
    assert!(!plan.clear_privileges);

    let (handle, opts) = core.register_open(file, 17, abi::O_WRONLY as u32);
    assert_eq!(handle, 1);
    assert_eq!(opts, 0); // Auto cache policy sets no reply options.

    // Releasing under the wrong object is refused; under the right one
    // the record comes back for closing, exactly once.
    assert_eq!(core.release_handle(file + 1, handle).unwrap_err(), Errno::BadDescriptor);
    assert_eq!(core.release_handle(file, handle).unwrap().fd, 17);
    assert_eq!(core.release_handle(file, handle).unwrap_err(), Errno::BadDescriptor);
}

#[test]
fn test_open_kill_suidgid_request() {
    let (core, _, file) = ready_core();
    let plan = core
        .plan_open(file, abi::O_RDWR as u32, abi::OPEN_KILL_SUIDGID)
        .unwrap();
    assert!(plan.clear_privileges);
}

#[test]
fn test_reply_options_follow_cache_policy() {
    let cfg = Config { cache_policy: CachePolicy::Metadata, ..test_config() };
    let mut core = FsCore::new(cfg);
    core.negotiate(0);
    let (root, _) = core.objects.resolve(3, abi::S_IFDIR | 0o755, 1, 100);
    let (file, _) = core.objects.resolve(4, abi::S_IFREG | 0o644, 1, 200);
    let (_, dir_opts) = core.register_open(root, 5, abi::O_DIRECTORY as u32);
    assert_eq!(dir_opts, abi::REPLY_CACHE_DIR | abi::REPLY_KEEP_CACHE);
    let (_, file_opts) = core.register_open(file, 6, abi::O_RDONLY as u32);
    assert_eq!(file_opts, abi::REPLY_DIRECT_IO);
    let (_, create_opts) = core.finish_create(file, 7, abi::O_WRONLY as u32);
    assert_eq!(create_opts, abi::REPLY_DIRECT_IO);
}

#[test]
fn test_create_plan_masks_mode() {
    let (core, root, _) = ready_core();
    let plan = core
        .plan_create(root, b"testfile", abi::O_WRONLY as u32, 0o6777, 0o22000 | 0o022)
        .unwrap();
    // Only the permission bits of the umask mask the mode.
    assert_eq!(plan.mode, 0o6755);
    assert_eq!(plan.parent_fd, 3);
    // Exclusive create-and-open, writeback-widened, close-on-exec.
    assert_eq!(
        plan.create_flags,
        abi::O_RDWR | abi::O_CREAT | abi::O_EXCL | abi::O_CLOEXEC
    );
    assert_eq!(
        core.plan_create(root, b"a/b", 0, 0o644, 0).unwrap_err(),
        Errno::InvalidArgument
    );
}

#[test]
fn test_path_operation_plans_validate_names() {
    let (core, root, file) = ready_core();
    assert_eq!(core.plan_mkdir(root, b"ok", 0o755, 0o022).unwrap(), (3, 0o755));
    assert_eq!(core.plan_mkdir(root, b".", 0o755, 0).unwrap_err(), Errno::InvalidArgument);
    assert_eq!(core.plan_unlink(root, b"..").unwrap_err(), Errno::InvalidArgument);
    assert_eq!(core.plan_rmdir(root, b"sub").unwrap(), 3);
    assert_eq!(core.plan_symlink(root, b"x/y").unwrap_err(), Errno::InvalidArgument);
    assert_eq!(core.plan_link(file, root, b"newlink").unwrap(), (4, 3));
    assert_eq!(
        core.plan_rename(root, b"oldname", root, b"bad/name").unwrap_err(),
        Errno::InvalidArgument
    );
    assert_eq!(core.plan_rename(root, b"a", root, b"b").unwrap(), (3, 3));
    // A stale parent is a bad descriptor, after the name check.
    assert_eq!(core.plan_mkdir(99, b"ok", 0o755, 0).unwrap_err(), Errno::BadDescriptor);
}

#[test]
fn test_getattr_routes() {
    let (mut core, _, file) = ready_core();
    let (handle, _) = core.register_open(file, 17, 0);
    match core.plan_getattr(file, Some(handle)).unwrap() {
        (DescriptorRoute::ViaHandle(rec), timeout) => {
            assert_eq!(rec.fd, 17);
            assert_eq!(timeout, 1_000_000_000);
        }
        _ => panic!("expected the handle route"),
    }
    match core.plan_getattr(file, None).unwrap() {
        (DescriptorRoute::ViaAnchor(fd), _) => assert_eq!(fd, 4),
        _ => panic!("expected the anchor route"),
    }
    assert_eq!(core.plan_getattr(99, None).unwrap_err(), Errno::BadDescriptor);
}

#[test]
fn test_write_plan_reconciles_flags_and_clears_privileges() {
    let (mut core, _, file) = ready_core();
    let (handle, _) = core.register_open(file, 17, abi::O_RDWR as u32);
    let plan = core
        .plan_write(file, handle, abi::O_RDWR as u32, abi::WRITE_KILL_SUIDGID)
        .unwrap();
    assert!(matches!(plan.source, DataSource::Registered(rec) if rec.fd == 17));
    assert!(plan.reconcile_flags.is_none());
    assert!(plan.clear_privileges);
    assert!(!plan.check_seal);

    // Request flags differing from those last applied ask for an update.
    let nb = (abi::O_RDWR | abi::O_NONBLOCK) as u32;
    let plan2 = core.plan_write(file, handle, nb, 0).unwrap();
    assert_eq!(plan2.reconcile_flags, Some(nb));
    assert!(!plan2.clear_privileges);
    assert!(core.note_handle_flags(handle, nb));
    let plan3 = core.plan_write(file, handle, nb, 0).unwrap();
    assert!(plan3.reconcile_flags.is_none());
}

#[test]
fn test_sealed_session_rejects_size_changes() {
    let (mut core, _, file) = ready_core();
    core.session.set_size_sealing(true);
    let (handle, _) = core.register_open(file, 17, abi::O_RDWR as u32);

    // The write path must hold the freshly read size against the sealing
    // policy.
    let wplan = core.plan_write(file, handle, abi::O_RDWR as u32, 0).unwrap();
    assert!(wplan.check_seal);
    assert_eq!(
        seal_size_check(SealedSizeOp::Write, 4096, 4096, 1, 0),
        Err(Errno::PermissionDenied)
    );

    // An explicit size change is refused before anything would run.
    let attr = AttrValues {
        mode: 0,
        uid: 0,
        gid: 0,
        size: 8192,
        atime_sec: 0,
        atime_nsec: 0,
        mtime_sec: 0,
        mtime_nsec: 0,
    };
    assert_eq!(
        core.plan_setattr(file, None, abi::SETATTR_SIZE, &attr).unwrap_err(),
        Errno::PermissionDenied
    );
    // A request without a size change is not the sealing policy's concern.
    assert!(core.plan_setattr(file, None, abi::SETATTR_MODE, &attr).is_ok());
}

#[test]
fn test_setattr_plan_composition() {
    let (mut core, _, file) = ready_core();
    let (handle, _) = core.register_open(file, 17, 0);
    let attr = AttrValues {
        mode: 0o640,
        uid: 33,
        gid: 44,
        size: 4096,
        atime_sec: 11,
        atime_nsec: 12,
        mtime_sec: 0,
        mtime_nsec: 0,
    };
    let valid = abi::SETATTR_MODE | abi::SETATTR_UID | abi::SETATTR_SIZE | abi::SETATTR_ATIME
        | abi::SETATTR_MTIME_NOW | abi::SETATTR_KILL_SUIDGID;
    let plan = core.plan_setattr(file, Some(handle), valid, &attr).unwrap();
    assert!(matches!(plan.target, DescriptorRoute::ViaHandle(rec) if rec.fd == 17));
    assert_eq!(plan.chmod, Some(0o640));
    // Only the user id changes; the group side is left as is.
    assert_eq!(plan.chown, Some((33, u32::MAX)));
    let trunc = plan.truncate.unwrap();
    assert_eq!(trunc.size, 4096);
    // The request signalled suid/sgid clearing and the session granted it.
    assert!(trunc.clear_privileges);
    assert!(trunc.reopen.is_none());
    let (at, mt) = plan.times.unwrap();
    assert_eq!(at, TimeUpdate::At { sec: 11, nsec: 12 });
    assert_eq!(mt, TimeUpdate::Now);
    assert_eq!(plan.attr_timeout_ns, 1_000_000_000);
}

#[test]
fn test_setattr_without_handle_reopens_for_truncate() {
    let (core, _, file) = ready_core();
    let attr = AttrValues {
        mode: 0,
        uid: 0,
        gid: 0,
        size: 0,
        atime_sec: 0,
        atime_nsec: 0,
        mtime_sec: 0,
        mtime_nsec: 0,
    };
    let plan = core.plan_setattr(file, None, abi::SETATTR_SIZE, &attr).unwrap();
    assert!(matches!(plan.target, DescriptorRoute::ViaAnchor(4)));
    let trunc = plan.truncate.unwrap();
    // No descriptor to truncate through: a fresh, non-blocking
    // read-write open is planned.
    assert_eq!(
        trunc.reopen,
        Some(Ok(abi::O_RDWR | abi::O_NONBLOCK | abi::O_CLOEXEC))
    );
    // The request did not signal clearing, so none happens.
    assert!(!trunc.clear_privileges);
}

#[test]
fn test_fallocate_has_no_privilege_clearing() {
    // The deliberate asymmetry: a write that signals it clears suid/sgid,
    // a space allocation never does — its plan carries no such step.
    let (mut core, _, file) = ready_core();
    let (handle, _) = core.register_open(file, 17, abi::O_RDWR as u32);
    let plan = core.plan_fallocate(file, handle).unwrap();
    // Sealing is off: no size check runs at all before the allocation.
    assert!(!plan.check_seal);
    assert!(matches!(plan.source, DataSource::Registered(rec) if rec.fd == 17));
}

#[test]
fn test_batch_forget_releases_in_order() {
    let (mut core, _, file) = ready_core();
    let (other, _) = core.objects.resolve(6, abi::S_IFREG | 0o644, 1, 400);
    core.objects.resolve(6, abi::S_IFREG | 0o644, 1, 400);
    // `file` holds one reference, `other` two.
    let removed = core.batch_forget(&vec![(file, 1), (other, 1), (999, 4), (other, 1)]);
    assert_eq!(removed.len(), 2);
    assert_eq!(removed[0].ino, 200);
    assert_eq!(removed[1].ino, 400);
    assert!(!core.objects.contains(file));
    assert!(!core.objects.contains(other));
}

#[test]
fn test_directory_lifecycle_decisions() {
    // Create a directory, open it, sync it, release it, remove it: every
    // decision on the way.
    let (mut core, root, _) = ready_core();
    let (parent_fd, mode) = core.plan_mkdir(root, b"testdir", 0o755, 0).unwrap();
    assert_eq!((parent_fd, mode), (3, 0o755));
    let (dir, _) = core.objects.resolve(8, abi::S_IFDIR | 0o755, 1, 500);

    let plan = core.plan_opendir(dir, abi::O_RDONLY as u32).unwrap();
    assert_eq!(plan.open_flags, abi::O_RDONLY | abi::O_DIRECTORY | abi::O_CLOEXEC);
    let (handle, _) = core.register_open(dir, 9, (abi::O_RDONLY | abi::O_DIRECTORY) as u32);

    // A listing request is served (not answered empty), through the
    // registered handle; the raw read itself is the embedder's.
    assert!(!core.listing_answers_empty(10));
    assert!(core.listing_answers_empty(0));
    assert!(matches!(
        core.acquire_dirdata(handle, dir, abi::O_RDONLY).unwrap(),
        DataSource::Registered(rec) if rec.fd == 9
    ));
    // A reply size too small to hold even one record cannot produce a
    // well-formed buffer: whatever such a first read returns, the call
    // fails rather than delivering anything.
    assert_eq!(
        passfs::readdir::list_all(vec![0u8; 10]).unwrap_err(),
        Errno::InvalidArgument
    );

    // Directory sync reaches the same descriptor.
    assert!(matches!(
        core.acquire_data(handle, dir, abi::O_RDONLY).unwrap(),
        DataSource::Registered(_)
    ));

    // Release, then remove.
    assert_eq!(core.release_dir_handle(dir, handle).unwrap().fd, 9);
    assert_eq!(core.plan_rmdir(root, b"testdir").unwrap(), 3);
}

#[test]
fn test_xattr_gates() {
    let (core, _, file) = ready_core();
    assert_eq!(core.plan_xattr_target(file).unwrap(), 4);
    assert_eq!(core.plan_xattr_target(99).unwrap_err(), Errno::BadDescriptor);
    let cfg = Config { xattr: false, ..test_config() };
    let mut disabled = FsCore::new(cfg);
    disabled.negotiate(0);
    let (id, _) = disabled.objects.resolve(3, abi::S_IFREG | 0o644, 1, 100);
    assert_eq!(disabled.plan_xattr_target(id).unwrap_err(), Errno::NotSupported);
    assert!(!disabled.xattr_enabled());
}

#[test]
fn test_mapping_open_follows_write_flag() {
    let (core, _, file) = ready_core();
    let w = core.plan_mapping_open(file, abi::MAPPING_WRITE).unwrap();
    assert_eq!(w.open_flags & abi::O_ACCMODE, abi::O_RDWR);
    let r = core.plan_mapping_open(file, 0).unwrap();
    assert_eq!(r.open_flags & abi::O_ACCMODE, abi::O_RDONLY);
}

#[test]
fn test_reset_clears_everything() {
    let (mut core, _, file) = ready_core();
    core.register_open(file, 17, 0);
    core.reset();
    assert_eq!(core.objects.len(), 0);
    assert_eq!(core.handles.len(), 0);
    assert_eq!(core.plan_getattr(file, None).unwrap_err(), Errno::BadDescriptor);
}
