//! The safety and privilege policy: stateless predicate and guard functions
//! consulted by every other component.
//!
//! Nothing here performs an operation; each function decides, from plain
//! values, whether an operation may proceed and in what form.

use vstd::prelude::*;
use crate::abi::{
    FALLOC_COLLAPSE_RANGE, FALLOC_INSERT_RANGE, FALLOC_KEEP_SIZE, FALLOC_UNSHARE_RANGE,
    FALLOC_ZERO_RANGE, OPEN_KILL_SUIDGID, O_ACCMODE, O_APPEND, O_CLOEXEC, O_DIRECT, O_RDWR,
    O_WRONLY, R_OK, S_IFDIR, S_IFMT, S_IFREG, WRITE_KILL_SUIDGID, W_OK, X_OK,
};
use crate::errno::Errno;

verus! {

// ---------------------------------------------------------------------------
// Node-type gate
// ---------------------------------------------------------------------------

/// An object may be opened for data I/O only if it is a regular file or a
/// directory; devices, sockets, fifos and symlinks are refused.
pub open spec fn safe_mode(mode: u32) -> bool {
    mode & S_IFMT == S_IFREG || mode & S_IFMT == S_IFDIR
}

/// The node-type gate (see [`safe_mode`]).
pub fn is_safe_mode(mode: u32) -> (r: bool)
    ensures
        r == safe_mode(mode),
{
    mode & S_IFMT == S_IFREG || mode & S_IFMT == S_IFDIR
}

// ---------------------------------------------------------------------------
// Path-component validation
// ---------------------------------------------------------------------------

/// A name supplied to a creating or renaming operation must be non-empty,
/// contain no path separator, and not be exactly "." or "..".
pub open spec fn valid_component(s: Seq<u8>) -> bool {
    &&& s.len() > 0
    &&& !s.contains(47u8)
    &&& s != seq![46u8]
    &&& s != seq![46u8, 46u8]
}

/// What [`validate_path_component`] returns.
pub open spec fn component_check(s: Seq<u8>) -> Result<(), Errno> {
    if valid_component(s) {
        Ok(())
    } else {
        Err(Errno::InvalidArgument)
    }
}

fn slice_contains_byte(s: &[u8], b: u8) -> (r: bool)
    ensures
        r == s@.contains(b),
{
    let mut i: usize = 0;
    while i < s.len()
        invariant
            i <= s@.len(),
            forall|j: int| 0 <= j < i ==> s@[j] != b,
        decreases s@.len() - i,
    {
        if s[i] == b {
            assert(s@[i as int] == b);
            return true;
        }
        i = i + 1;
    }
    false
}

/// Validate a name for every operation that creates or renames an entry.
pub fn validate_path_component(name: &[u8]) -> (r: Result<(), Errno>)
    ensures
        r == component_check(name@),
        r is Ok <==> valid_component(name@),
{
    if name.len() == 0 {
        return Err(Errno::InvalidArgument);
    }
    if slice_contains_byte(name, 47) {
        return Err(Errno::InvalidArgument);
    }
    if name.len() == 1 && name[0] == 46 {
        proof {
            assert(name@ =~= seq![46u8]);
        }
        return Err(Errno::InvalidArgument);
    }
    if name.len() == 2 && name[0] == 46 && name[1] == 46 {
        proof {
            assert(name@ =~= seq![46u8, 46u8]);
        }
        return Err(Errno::InvalidArgument);
    }
    proof {
        if name@.len() == 1 {
            assert(name@ != seq![46u8]) by {
                assert(name@[0] != 46);
            }
        } else {
            assert(name@.len() != seq![46u8].len());
        }
        if name@.len() == 2 {
            assert(name@ != seq![46u8, 46u8]) by {
                assert(name@[0] != 46 || name@[1] != 46);
            }
        } else {
            assert(name@.len() != seq![46u8, 46u8].len());
        }
    }
    Ok(())
}

/// Validate a name for the pure resolve operation, which must allow "." and
/// ".." so that reverse path resolution keeps working; only a path separator
/// is refused.
pub fn validate_lookup_name(name: &[u8]) -> (r: Result<(), Errno>)
    ensures
        r == (if name@.contains(47u8) {
            Err::<(), Errno>(Errno::InvalidArgument)
        } else {
            Ok::<(), Errno>(())
        }),
{
    if slice_contains_byte(name, 47) {
        Err(Errno::InvalidArgument)
    } else {
        Ok(())
    }
}

// ---------------------------------------------------------------------------
// Access probe
// ---------------------------------------------------------------------------

/// Reading is denied when the requester is not root and none of the owner,
/// group and other read bits apply to it.
pub open spec fn read_denied(uid: u32, gid: u32, st_uid: u32, st_gid: u32, st_mode: u32) -> bool {
    &&& uid != 0
    &&& (st_uid != uid || st_mode & 0o400 == 0)
    &&& (st_gid != gid || st_mode & 0o040 == 0)
    &&& st_mode & 0o004 == 0
}

/// Writing is denied when the requester is not root and none of the owner,
/// group and other write bits apply to it.
pub open spec fn write_denied(uid: u32, gid: u32, st_uid: u32, st_gid: u32, st_mode: u32) -> bool {
    &&& uid != 0
    &&& (st_uid != uid || st_mode & 0o200 == 0)
    &&& (st_gid != gid || st_mode & 0o020 == 0)
    &&& st_mode & 0o002 == 0
}

/// Execution is denied when no applicable execute bit is set; root may
/// execute only what at least one of owner, group or other may execute.
pub open spec fn exec_denied(uid: u32, gid: u32, st_uid: u32, st_gid: u32, st_mode: u32) -> bool {
    &&& (uid != 0 || st_mode & 0o111 == 0)
    &&& (st_uid != uid || st_mode & 0o100 == 0)
    &&& (st_gid != gid || st_mode & 0o010 == 0)
    &&& st_mode & 0o001 == 0
}

/// The access probe grants a mask when no requested permission is denied;
/// a mask that requests nothing (a pure existence probe) is always granted.
pub open spec fn access_granted(
    uid: u32,
    gid: u32,
    st_uid: u32,
    st_gid: u32,
    st_mode: u32,
    mask: u32,
) -> bool {
    let m = mask & (R_OK | W_OK | X_OK);
    &&& (m & R_OK != 0 ==> !read_denied(uid, gid, st_uid, st_gid, st_mode))
    &&& (m & W_OK != 0 ==> !write_denied(uid, gid, st_uid, st_gid, st_mode))
    &&& (m & X_OK != 0 ==> !exec_denied(uid, gid, st_uid, st_gid, st_mode))
}

/// The user-visible access probe, applied to the object's freshly read
/// ownership and mode bits.
pub fn check_access(uid: u32, gid: u32, st_uid: u32, st_gid: u32, st_mode: u32, mask: u32) -> (r:
    Result<(), Errno>)
    ensures
        r is Ok <==> access_granted(uid, gid, st_uid, st_gid, st_mode, mask),
        r is Err ==> r == Err::<(), Errno>(Errno::AccessDenied),
{
    let m = mask & (R_OK | W_OK | X_OK);
    if m == 0 {
        // The object exists, or its attributes could not have been read.
        proof {
            assert(m == 0 ==> m & R_OK == 0 && m & W_OK == 0 && m & X_OK == 0) by (bit_vector);
        }
        return Ok(());
    }
    if m & R_OK != 0 && uid != 0 && (st_uid != uid || st_mode & 0o400 == 0) && (st_gid != gid
        || st_mode & 0o040 == 0) && st_mode & 0o004 == 0 {
        return Err(Errno::AccessDenied);
    }
    if m & W_OK != 0 && uid != 0 && (st_uid != uid || st_mode & 0o200 == 0) && (st_gid != gid
        || st_mode & 0o020 == 0) && st_mode & 0o002 == 0 {
        return Err(Errno::AccessDenied);
    }
    if m & X_OK != 0 && (uid != 0 || st_mode & 0o111 == 0) && (st_uid != uid || st_mode & 0o100
        == 0) && (st_gid != gid || st_mode & 0o010 == 0) && st_mode & 0o001 == 0 {
        return Err(Errno::AccessDenied);
    }
    Ok(())
}

// ---------------------------------------------------------------------------
// Writeback-derived open-flag adjustment
// ---------------------------------------------------------------------------

/// With writeback caching on, the remote side may issue reads against a
/// write-only open, so such an open is widened to read-write; and the kernel
/// owns append handling, so the append flag is stripped.
pub open spec fn writeback_adjusted_flags(writeback: bool, flags: i32) -> i32 {
    let widened = if writeback && flags & O_ACCMODE == O_WRONLY {
        (flags & !O_ACCMODE) | O_RDWR
    } else {
        flags
    };
    if writeback && widened & O_APPEND != 0 {
        widened & !O_APPEND
    } else {
        widened
    }
}

/// Apply the writeback-derived flag adjustment (see
/// [`writeback_adjusted_flags`]).
pub fn adjust_flags_for_writeback(writeback: bool, flags: i32) -> (r: i32)
    ensures
        r == writeback_adjusted_flags(writeback, flags),
{
    let mut new_flags = flags;
    if writeback && flags & O_ACCMODE == O_WRONLY {
        new_flags = (new_flags & !O_ACCMODE) | O_RDWR;
    }
    if writeback && new_flags & O_APPEND != 0 {
        new_flags = new_flags & !O_APPEND;
    }
    new_flags
}

/// The flags actually used when opening an object's descriptor: adjusted for
/// writeback, stripped of direct I/O where the configuration forbids it, and
/// always close-on-exec.
pub open spec fn descriptor_open_flags(writeback: bool, allow_direct_io: bool, flags: i32) -> i32 {
    let adjusted = writeback_adjusted_flags(writeback, flags);
    let no_direct = if !allow_direct_io && flags & O_DIRECT != 0 {
        adjusted & !O_DIRECT
    } else {
        adjusted
    };
    no_direct | O_CLOEXEC
}

/// Compute the flags for opening an object's descriptor (see
/// [`descriptor_open_flags`]).
pub fn open_flags_for_descriptor(writeback: bool, allow_direct_io: bool, flags: i32) -> (r: i32)
    ensures
        r == descriptor_open_flags(writeback, allow_direct_io, flags),
{
    let mut new_flags = adjust_flags_for_writeback(writeback, flags);
    if !allow_direct_io && flags & O_DIRECT != 0 {
        new_flags = new_flags & !O_DIRECT;
    }
    new_flags | O_CLOEXEC
}

// ---------------------------------------------------------------------------
// Privilege-clear scoping decisions
// ---------------------------------------------------------------------------

/// Whether an open-family request must run with suid/sgid preservation
/// suppressed: only when the session negotiated privilege clearing and the
/// request signals it.
pub fn open_must_clear_privileges(killpriv: bool, fuse_flags: u32) -> (r: bool)
    ensures
        r == (killpriv && fuse_flags & OPEN_KILL_SUIDGID != 0),
{
    killpriv && fuse_flags & OPEN_KILL_SUIDGID != 0
}

/// Whether a write request must run with suid/sgid preservation suppressed.
pub fn write_must_clear_privileges(killpriv: bool, fuse_flags: u32) -> (r: bool)
    ensures
        r == (killpriv && fuse_flags & WRITE_KILL_SUIDGID != 0),
{
    killpriv && fuse_flags & WRITE_KILL_SUIDGID != 0
}

// ---------------------------------------------------------------------------
// Size-sealing gate
// ---------------------------------------------------------------------------

/// The two operation families the size-sealing gate distinguishes once the
/// explicit size change has been rejected outright.
#[derive(Clone, Copy, Debug, PartialEq, Eq, Structural)]
pub enum SealedSizeOp {
    /// A data write of `size` bytes at `offset`.
    Write,
    /// A space (de)allocation with the request's mode bits.
    Allocate,
}

/// What the size-sealing gate decides: a range whose end overflows is
/// malformed; a write, a plain allocation or a zero-range reaching past the
/// current end of the file would grow it and is refused; collapsing or
/// inserting a range always moves the end and is refused; punching a hole
/// and other size-preserving modes pass.
pub open spec fn seal_size_decision(
    op: SealedSizeOp,
    file_size: u64,
    offset: u64,
    size: u64,
    mode: u32,
) -> Result<(), Errno> {
    if offset + size > u64::MAX {
        Err(Errno::InvalidArgument)
    } else {
        match op {
            SealedSizeOp::Write => {
                if offset + size > file_size {
                    Err(Errno::PermissionDenied)
                } else {
                    Ok(())
                }
            },
            SealedSizeOp::Allocate => {
                let kind = mode & !(FALLOC_KEEP_SIZE | FALLOC_UNSHARE_RANGE);
                if kind == FALLOC_COLLAPSE_RANGE || kind == FALLOC_INSERT_RANGE {
                    Err(Errno::PermissionDenied)
                } else if (kind == 0 || kind == FALLOC_ZERO_RANGE) && offset + size > file_size {
                    Err(Errno::PermissionDenied)
                } else {
                    Ok(())
                }
            },
        }
    }
}

/// The size-sealing gate, consulted before the underlying syscall and before
/// any privilege adjustment whenever size sealing is active.
pub fn seal_size_check(op: SealedSizeOp, file_size: u64, offset: u64, size: u64, mode: u32) -> (r:
    Result<(), Errno>)
    ensures
        r == seal_size_decision(op, file_size, offset, size, mode),
{
    let end = match offset.checked_add(size) {
        Some(e) => e,
        None => {
            return Err(Errno::InvalidArgument);
        },
    };
    match op {
        SealedSizeOp::Write => {
            if end > file_size {
                Err(Errno::PermissionDenied)
            } else {
                Ok(())
            }
        },
        SealedSizeOp::Allocate => {
            let kind = mode & !(FALLOC_KEEP_SIZE | FALLOC_UNSHARE_RANGE);
            if kind == FALLOC_COLLAPSE_RANGE || kind == FALLOC_INSERT_RANGE {
                Err(Errno::PermissionDenied)
            } else if (kind == 0 || kind == FALLOC_ZERO_RANGE) && end > file_size {
                Err(Errno::PermissionDenied)
            } else {
                Ok(())
            }
        },
    }
}

} // verus!
