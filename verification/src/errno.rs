//! POSIX-style error codes surfaced by the decision layer.
//!
//! The policy layer itself only ever produces the first five variants; `Os`
//! carries a raw error number reported by the host kernel back through the
//! protocol state machines unchanged.

use vstd::prelude::*;

verus! {

/// A POSIX-style error code.
#[derive(Clone, Copy, Debug, PartialEq, Eq, Structural)]
pub enum Errno {
    /// `EBADF`: stale object or handle identifier, handle/object mismatch,
    /// or the node-type gate refused the object.
    BadDescriptor,
    /// `EINVAL`: malformed name or malformed directory record.
    InvalidArgument,
    /// `ENOSYS`: the operation was negotiated away for this session.
    NotSupported,
    /// `EPERM`: the size-sealing gate rejected a size-changing operation.
    PermissionDenied,
    /// `EACCES`: the access probe denied the requested permission.
    AccessDenied,
    /// Any other error number reported by the host kernel.
    Os(i32),
}

impl Errno {
    /// The Linux error number for this code.
    pub fn as_raw(self) -> (r: i32)
        ensures
            r == self.raw(),
    {
        match self {
            Errno::BadDescriptor => 9,
            Errno::InvalidArgument => 22,
            Errno::NotSupported => 38,
            Errno::PermissionDenied => 1,
            Errno::AccessDenied => 13,
            Errno::Os(n) => n,
        }
    }

    /// What `as_raw` returns.
    pub open spec fn raw(self) -> i32 {
        match self {
            Errno::BadDescriptor => 9,
            Errno::InvalidArgument => 22,
            Errno::NotSupported => 38,
            Errno::PermissionDenied => 1,
            Errno::AccessDenied => 13,
            Errno::Os(n) => n,
        }
    }
}

} // verus!
