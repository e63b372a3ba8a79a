//! Numeric constants of the host kernel's interface and of the protocol
//! capability negotiation, as used by the decision layer.
//!
//! The open-flag and mode-bit values are the Linux ones for the supported
//! (x86-64) target; the test suite holds them against the C library's own
//! definitions.

use vstd::prelude::*;

verus! {

// The protocol's reserved identifier for the exported root.
pub const ROOT_OBJECT: u64 = 1;

// File-mode bits: the type field and the classes this engine cares about.
pub const S_IFMT: u32 = 0o170000;
pub const S_IFREG: u32 = 0o100000;
pub const S_IFDIR: u32 = 0o040000;
pub const S_IFBLK: u32 = 0o060000;
pub const S_IFCHR: u32 = 0o020000;
pub const S_IFIFO: u32 = 0o010000;
pub const S_IFSOCK: u32 = 0o140000;
pub const S_IFLNK: u32 = 0o120000;

// Open flags (Linux, x86-64).
pub const O_RDONLY: i32 = 0;
pub const O_WRONLY: i32 = 1;
pub const O_RDWR: i32 = 2;
pub const O_ACCMODE: i32 = 3;
pub const O_CREAT: i32 = 0o100;
pub const O_EXCL: i32 = 0o200;
pub const O_TRUNC: i32 = 0o1000;
pub const O_APPEND: i32 = 0o2000;
pub const O_NONBLOCK: i32 = 0o4000;
pub const O_DIRECT: i32 = 0o40000;
pub const O_DIRECTORY: i32 = 0o200000;
pub const O_CLOEXEC: i32 = 0o2000000;

// Access-probe mask bits.
pub const R_OK: u32 = 4;
pub const W_OK: u32 = 2;
pub const X_OK: u32 = 1;

// Which attribute fields a set-attributes request carries, and how.
pub const SETATTR_MODE: u32 = 0x1;
pub const SETATTR_UID: u32 = 0x2;
pub const SETATTR_GID: u32 = 0x4;
pub const SETATTR_SIZE: u32 = 0x8;
pub const SETATTR_ATIME: u32 = 0x10;
pub const SETATTR_MTIME: u32 = 0x20;
pub const SETATTR_FH: u32 = 0x40;
pub const SETATTR_ATIME_NOW: u32 = 0x80;
pub const SETATTR_MTIME_NOW: u32 = 0x100;
pub const SETATTR_LOCKOWNER: u32 = 0x200;
pub const SETATTR_CTIME: u32 = 0x400;
pub const SETATTR_KILL_SUIDGID: u32 = 0x800;

// Session capability bits, negotiated once at session start.
pub const CAP_ATOMIC_O_TRUNC: u64 = 0x8;
pub const CAP_DO_READDIRPLUS: u64 = 0x2000;
pub const CAP_READDIRPLUS_AUTO: u64 = 0x4000;
pub const CAP_WRITEBACK_CACHE: u64 = 0x10000;
pub const CAP_ZERO_MESSAGE_OPEN: u64 = 0x20000;
pub const CAP_ZERO_MESSAGE_OPENDIR: u64 = 0x1000000;
pub const CAP_HANDLE_KILLPRIV_V2: u64 = 0x10000000;
pub const CAP_PERFILE_DAX: u64 = 0x200000000;

// Per-request flag on an open: suid/sgid bits must not survive the open.
pub const OPEN_KILL_SUIDGID: u32 = 0x1;
// Per-request flag on a write: suid/sgid bits must not survive the write.
pub const WRITE_KILL_SUIDGID: u32 = 0x4;

// Shared-memory mapping request: the mapping is writable.
pub const MAPPING_WRITE: u64 = 0x1;

// Reply options handed back by the open family, derived from the cache policy.
pub const REPLY_DIRECT_IO: u32 = 0x1;
pub const REPLY_KEEP_CACHE: u32 = 0x2;
pub const REPLY_CACHE_DIR: u32 = 0x8;

// Space-allocation request mode bits.
pub const FALLOC_KEEP_SIZE: u32 = 0x1;
pub const FALLOC_PUNCH_HOLE: u32 = 0x2;
pub const FALLOC_COLLAPSE_RANGE: u32 = 0x8;
pub const FALLOC_ZERO_RANGE: u32 = 0x10;
pub const FALLOC_INSERT_RANGE: u32 = 0x20;
pub const FALLOC_UNSHARE_RANGE: u32 = 0x40;

} // verus!
