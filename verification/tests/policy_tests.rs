use passfs::abi;
use passfs::errno::Errno;
use passfs::policy::{
    adjust_flags_for_writeback, check_access, is_safe_mode, open_flags_for_descriptor,
    seal_size_check, validate_lookup_name, validate_path_component, SealedSizeOp,
};

#[test]
fn test_mode_constants_match_libc() {
    assert_eq!(abi::S_IFMT, libc::S_IFMT);
    assert_eq!(abi::S_IFREG, libc::S_IFREG);
    assert_eq!(abi::S_IFDIR, libc::S_IFDIR);
    assert_eq!(abi::S_IFBLK, libc::S_IFBLK);
    assert_eq!(abi::S_IFCHR, libc::S_IFCHR);
    assert_eq!(abi::S_IFIFO, libc::S_IFIFO);
    assert_eq!(abi::S_IFSOCK, libc::S_IFSOCK);
    assert_eq!(abi::S_IFLNK, libc::S_IFLNK);
}

#[test]
fn test_open_flag_constants_match_libc() {
    assert_eq!(abi::O_RDONLY, libc::O_RDONLY);
    assert_eq!(abi::O_WRONLY, libc::O_WRONLY);
    assert_eq!(abi::O_RDWR, libc::O_RDWR);
    assert_eq!(abi::O_ACCMODE, libc::O_ACCMODE);
    assert_eq!(abi::O_CREAT, libc::O_CREAT);
    assert_eq!(abi::O_EXCL, libc::O_EXCL);
    assert_eq!(abi::O_TRUNC, libc::O_TRUNC);
    assert_eq!(abi::O_APPEND, libc::O_APPEND);
    assert_eq!(abi::O_NONBLOCK, libc::O_NONBLOCK);
    assert_eq!(abi::O_DIRECT, libc::O_DIRECT);
    assert_eq!(abi::O_DIRECTORY, libc::O_DIRECTORY);
    assert_eq!(abi::O_CLOEXEC, libc::O_CLOEXEC);
}

#[test]
fn test_misc_constants_match_libc() {
    assert_eq!(abi::R_OK as i32, libc::R_OK);
    assert_eq!(abi::W_OK as i32, libc::W_OK);
    assert_eq!(abi::X_OK as i32, libc::X_OK);
    assert_eq!(abi::FALLOC_KEEP_SIZE as i32, libc::FALLOC_FL_KEEP_SIZE);
    assert_eq!(abi::FALLOC_PUNCH_HOLE as i32, libc::FALLOC_FL_PUNCH_HOLE);
    assert_eq!(abi::FALLOC_COLLAPSE_RANGE as i32, libc::FALLOC_FL_COLLAPSE_RANGE);
    assert_eq!(abi::FALLOC_ZERO_RANGE as i32, libc::FALLOC_FL_ZERO_RANGE);
    assert_eq!(abi::FALLOC_INSERT_RANGE as i32, libc::FALLOC_FL_INSERT_RANGE);
    assert_eq!(abi::FALLOC_UNSHARE_RANGE as i32, libc::FALLOC_FL_UNSHARE_RANGE);
    assert_eq!(Errno::BadDescriptor.as_raw(), libc::EBADF);
    assert_eq!(Errno::InvalidArgument.as_raw(), libc::EINVAL);
    assert_eq!(Errno::NotSupported.as_raw(), libc::ENOSYS);
    assert_eq!(Errno::PermissionDenied.as_raw(), libc::EPERM);
    assert_eq!(Errno::AccessDenied.as_raw(), libc::EACCES);
    assert_eq!(Errno::Os(7).as_raw(), 7);
}

#[test]
fn test_node_type_gate() {
    assert!(is_safe_mode(abi::S_IFREG | 0o644));
    assert!(is_safe_mode(abi::S_IFDIR | 0o755));
    assert!(!is_safe_mode(abi::S_IFBLK | 0o777));
    assert!(!is_safe_mode(abi::S_IFCHR | 0o666));
    assert!(!is_safe_mode(abi::S_IFIFO | 0o644));
    assert!(!is_safe_mode(abi::S_IFSOCK | 0o644));
    assert!(!is_safe_mode(abi::S_IFLNK | 0o777));
}

#[test]
fn test_path_component_validation() {
    assert!(validate_path_component(b"testdir").is_ok());
    assert!(validate_path_component(b".hidden").is_ok());
    assert!(validate_path_component(b"...").is_ok());
    assert!(validate_path_component(b"a b c").is_ok());
    assert_eq!(validate_path_component(b""), Err(Errno::InvalidArgument));
    assert_eq!(validate_path_component(b"."), Err(Errno::InvalidArgument));
    assert_eq!(validate_path_component(b".."), Err(Errno::InvalidArgument));
    assert_eq!(validate_path_component(b"a/b"), Err(Errno::InvalidArgument));
    assert_eq!(validate_path_component(b"/"), Err(Errno::InvalidArgument));
}

#[test]
fn test_lookup_name_allows_dots() {
    assert!(validate_lookup_name(b".").is_ok());
    assert!(validate_lookup_name(b"..").is_ok());
    assert!(validate_lookup_name(b"").is_ok());
    assert!(validate_lookup_name(b"plain").is_ok());
    assert_eq!(validate_lookup_name(b"a/b"), Err(Errno::InvalidArgument));
}

#[test]
fn test_access_probe_owner_and_group() {
    // Owner with matching read bit.
    assert!(check_access(1000, 1000, 1000, 1000, 0o100400, abi::R_OK).is_ok());
    // Owner whose own read bit is missing is not saved by the group bit.
    assert_eq!(
        check_access(1000, 1000, 1000, 2000, 0o100040, abi::R_OK),
        Err(Errno::AccessDenied)
    );
    // Group member with the group write bit.
    assert!(check_access(1000, 1000, 2000, 1000, 0o100020, abi::W_OK).is_ok());
    // Other users fall back to the world bits.
    assert_eq!(
        check_access(1000, 1000, 2000, 2000, 0o100660, abi::W_OK),
        Err(Errno::AccessDenied)
    );
    assert!(check_access(1000, 1000, 2000, 2000, 0o100662, abi::W_OK).is_ok());
}

#[test]
fn test_access_probe_root_and_exec() {
    // Root reads and writes regardless of bits.
    assert!(check_access(0, 0, 1000, 1000, 0o100000, abi::R_OK | abi::W_OK).is_ok());
    // Root executes only what someone may execute.
    assert_eq!(
        check_access(0, 0, 1000, 1000, 0o100644, abi::X_OK),
        Err(Errno::AccessDenied)
    );
    assert!(check_access(0, 0, 1000, 1000, 0o100100, abi::X_OK).is_ok());
    // An existence probe always succeeds once attributes were read.
    assert!(check_access(1000, 1000, 2000, 2000, 0o100000, 0).is_ok());
}

#[test]
fn test_writeback_open_flag_adjustment() {
    // Write-only widens to read-write under writeback caching.
    assert_eq!(
        adjust_flags_for_writeback(true, libc::O_WRONLY),
        libc::O_RDWR
    );
    // Append is handled remotely under writeback caching.
    assert_eq!(
        adjust_flags_for_writeback(true, libc::O_RDWR | libc::O_APPEND),
        libc::O_RDWR
    );
    // Without writeback nothing changes.
    assert_eq!(
        adjust_flags_for_writeback(false, libc::O_WRONLY | libc::O_APPEND),
        libc::O_WRONLY | libc::O_APPEND
    );
}

#[test]
fn test_descriptor_open_flags() {
    // Close-on-exec is always added.
    assert_eq!(
        open_flags_for_descriptor(false, true, libc::O_RDONLY),
        libc::O_RDONLY | libc::O_CLOEXEC
    );
    // Direct I/O is stripped where the configuration forbids it.
    assert_eq!(
        open_flags_for_descriptor(false, false, libc::O_RDWR | libc::O_DIRECT),
        libc::O_RDWR | libc::O_CLOEXEC
    );
    assert_eq!(
        open_flags_for_descriptor(false, true, libc::O_RDWR | libc::O_DIRECT),
        libc::O_RDWR | libc::O_DIRECT | libc::O_CLOEXEC
    );
}

#[test]
fn test_seal_size_gate_on_writes() {
    // Writing inside the current size passes.
    assert!(seal_size_check(SealedSizeOp::Write, 4096, 0, 4096, 0).is_ok());
    // Growing the file is refused.
    assert_eq!(
        seal_size_check(SealedSizeOp::Write, 4096, 4096, 1, 0),
        Err(Errno::PermissionDenied)
    );
    // A range whose end overflows is malformed.
    assert_eq!(
        seal_size_check(SealedSizeOp::Write, 4096, u64::MAX, 1, 0),
        Err(Errno::InvalidArgument)
    );
}

#[test]
fn test_seal_size_gate_on_allocations() {
    // Punching a hole keeps the size.
    assert!(seal_size_check(
        SealedSizeOp::Allocate,
        4096,
        0,
        8192,
        abi::FALLOC_KEEP_SIZE | abi::FALLOC_PUNCH_HOLE
    )
    .is_ok());
    // A plain allocation inside the file passes; past the end it grows.
    assert!(seal_size_check(SealedSizeOp::Allocate, 4096, 0, 4096, 0).is_ok());
    assert_eq!(
        seal_size_check(SealedSizeOp::Allocate, 4096, 4096, 4096, 0),
        Err(Errno::PermissionDenied)
    );
    // Collapsing or inserting a range always moves the end.
    assert_eq!(
        seal_size_check(SealedSizeOp::Allocate, 4096, 0, 1024, abi::FALLOC_COLLAPSE_RANGE),
        Err(Errno::PermissionDenied)
    );
    assert_eq!(
        seal_size_check(SealedSizeOp::Allocate, 4096, 0, 1024, abi::FALLOC_INSERT_RANGE),
        Err(Errno::PermissionDenied)
    );
    // Zeroing past the end grows the file.
    assert_eq!(
        seal_size_check(SealedSizeOp::Allocate, 4096, 4000, 1024, abi::FALLOC_ZERO_RANGE),
        Err(Errno::PermissionDenied)
    );
}
