//! Attribute mutation: one request composes up to four independently
//! gated sub-mutations, applied in a fixed order.
//!
//! The embedder executes a [`SetattrPlan`] in exactly this order:
//! permission bits, ownership, size, timestamps. A sub-mutation's failure
//! is the call's answer but does not roll back the earlier ones
//! (best-effort, not transactional), and the final attributes are always
//! freshly re-read from the object rather than synthesized, because a
//! mutation may itself trigger kernel-side effects (suid/sgid clearing)
//! that must be observed.

use vstd::prelude::*;
use crate::abi::{
    O_NONBLOCK, O_RDWR, SETATTR_ATIME, SETATTR_ATIME_NOW, SETATTR_GID, SETATTR_KILL_SUIDGID,
    SETATTR_MODE, SETATTR_MTIME, SETATTR_MTIME_NOW, SETATTR_SIZE, SETATTR_UID,
};
use crate::engine::{DescriptorRoute, FsCore};
use crate::errno::Errno;
use crate::policy::{descriptor_open_flags, is_safe_mode, open_flags_for_descriptor, safe_mode};

verus! {

/// The attribute values a set-attributes request carries; which of them
/// apply is decided by the request's validity bits alone.
#[derive(Clone, Copy, Debug, PartialEq, Eq, Structural)]
pub struct AttrValues {
    pub mode: u32,
    pub uid: u32,
    pub gid: u32,
    pub size: i64,
    pub atime_sec: i64,
    pub atime_nsec: i64,
    pub mtime_sec: i64,
    pub mtime_nsec: i64,
}

/// How one timestamp is updated: left unchanged, set to the current time,
/// or set to a given value.
#[derive(Clone, Copy, Debug, PartialEq, Eq, Structural)]
pub enum TimeUpdate {
    Leave,
    Now,
    At { sec: i64, nsec: i64 },
}

/// The size sub-mutation.
#[derive(Debug)]
pub struct TruncatePlan {
    /// The size to truncate or extend to.
    pub size: i64,
    /// Suppress suid/sgid preservation around the size change, restoring
    /// it unconditionally afterwards.
    pub clear_privileges: bool,
    /// `None`: truncate through the handle's descriptor. Otherwise there
    /// is no descriptor to truncate through, and the embedder must open a
    /// fresh one with these flags — or fail with this error exactly when
    /// it reaches this step, where the node-type gate refuses the object.
    pub reopen: Option<Result<i32, Errno>>,
}

/// One attribute-mutation call, decided: the embedder applies the present
/// sub-mutations in order — permissions, ownership, size, timestamps —
/// then re-reads the attributes and answers them with the timeout.
#[derive(Debug)]
pub struct SetattrPlan {
    /// How the mutating syscalls reach the object.
    pub target: DescriptorRoute,
    /// Set the permission bits.
    pub chmod: Option<u32>,
    /// Change ownership; an unchanged side carries the largest value,
    /// which the syscall reads as "leave as is".
    pub chown: Option<(u32, u32)>,
    /// Change the size.
    pub truncate: Option<TruncatePlan>,
    /// Update the timestamps, each side independently.
    pub times: Option<(TimeUpdate, TimeUpdate)>,
    /// How long the remote side may trust the answered attributes.
    pub attr_timeout_ns: u64,
}

/// How the access timestamp is updated.
pub open spec fn atime_update(valid: u32, attr: AttrValues) -> TimeUpdate {
    if valid & SETATTR_ATIME_NOW != 0 {
        TimeUpdate::Now
    } else if valid & SETATTR_ATIME != 0 {
        TimeUpdate::At { sec: attr.atime_sec, nsec: attr.atime_nsec }
    } else {
        TimeUpdate::Leave
    }
}

/// How the modification timestamp is updated.
pub open spec fn mtime_update(valid: u32, attr: AttrValues) -> TimeUpdate {
    if valid & SETATTR_MTIME_NOW != 0 {
        TimeUpdate::Now
    } else if valid & SETATTR_MTIME != 0 {
        TimeUpdate::At { sec: attr.mtime_sec, nsec: attr.mtime_nsec }
    } else {
        TimeUpdate::Leave
    }
}

impl FsCore {
    /// Whether a set-attributes request reaches its object through a
    /// claimed handle rather than the path anchor.
    pub open spec fn setattr_uses_handle(&self, handle: Option<u64>) -> bool {
        !self.session.no_open && handle is Some
    }

    /// Decide one attribute-mutation call. A stale object or a
    /// mismatched handle is a bad descriptor; when size sealing is active
    /// every request that carries a size change is refused outright, with
    /// a permission error, before anything else would run.
    pub fn plan_setattr(&self, id: u64, handle: Option<u64>, valid: u32, attr: &AttrValues) -> (r:
        Result<SetattrPlan, Errno>)
        ensures
            r is Ok <==> (self.objects@.contains_key(id) && (!self.setattr_uses_handle(handle) || (
            self.handles@.contains_key(handle->Some_0) && self.handles@[handle->Some_0].object
                == id)) && !(valid & SETATTR_SIZE != 0 && self.session.seal_size)),
            !self.objects@.contains_key(id) ==> r == Err::<SetattrPlan, Errno>(
                Errno::BadDescriptor,
            ),
            self.objects@.contains_key(id) && self.setattr_uses_handle(handle) && !(
            self.handles@.contains_key(handle->Some_0) && self.handles@[handle->Some_0].object
                == id) ==> r == Err::<SetattrPlan, Errno>(Errno::BadDescriptor),
            r is Err ==> r == Err::<SetattrPlan, Errno>(Errno::BadDescriptor) || r == Err::<
                SetattrPlan,
                Errno,
            >(Errno::PermissionDenied),
            self.objects@.contains_key(id) && (!self.setattr_uses_handle(handle) || (
            self.handles@.contains_key(handle->Some_0) && self.handles@[handle->Some_0].object
                == id)) && valid & SETATTR_SIZE != 0 && self.session.seal_size ==> r == Err::<
                SetattrPlan,
                Errno,
            >(Errno::PermissionDenied),
            r matches Ok(p) ==> {
                &&& p.target == (if self.setattr_uses_handle(handle) {
                    DescriptorRoute::ViaHandle(self.handles@[handle->Some_0])
                } else {
                    DescriptorRoute::ViaAnchor(self.objects@[id].anchor_fd)
                })
                &&& p.chmod == (if valid & SETATTR_MODE != 0 {
                    Some(attr.mode)
                } else {
                    None::<u32>
                })
                &&& p.chown == (if valid & (SETATTR_UID | SETATTR_GID) != 0 {
                    Some(
                        (
                            if valid & SETATTR_UID != 0 {
                                attr.uid
                            } else {
                                u32::MAX
                            },
                            if valid & SETATTR_GID != 0 {
                                attr.gid
                            } else {
                                u32::MAX
                            },
                        ),
                    )
                } else {
                    None::<(u32, u32)>
                })
                &&& p.truncate == (if valid & SETATTR_SIZE != 0 {
                    Some(
                        TruncatePlan {
                            size: attr.size,
                            clear_privileges: self.session.killpriv_v2 && valid
                                & SETATTR_KILL_SUIDGID != 0,
                            reopen: if self.setattr_uses_handle(handle) {
                                None::<Result<i32, Errno>>
                            } else if safe_mode(self.objects@[id].mode) {
                                Some(
                                    Ok(
                                        descriptor_open_flags(
                                            self.session.writeback,
                                            self.config.allow_direct_io,
                                            O_NONBLOCK | O_RDWR,
                                        ),
                                    ),
                                )
                            } else {
                                Some(Err(Errno::BadDescriptor))
                            },
                        },
                    )
                } else {
                    None::<TruncatePlan>
                })
                &&& p.times == (if valid & (SETATTR_ATIME | SETATTR_MTIME) != 0 {
                    Some((atime_update(valid, *attr), mtime_update(valid, *attr)))
                } else {
                    None::<(TimeUpdate, TimeUpdate)>
                })
                &&& p.attr_timeout_ns == self.config.attr_timeout_ns
            },
    {
        let rec = match self.objects.get(id) {
            Ok(r) => r,
            Err(e) => {
                return Err(e);
            },
        };
        let mut via_handle: Option<crate::handle_table::HandleRecord> = None;
        if !self.session.no_open {
            match handle {
                Some(h) => {
                    let hrec = match self.handles.get(h, id) {
                        Ok(hr) => hr,
                        Err(e) => {
                            return Err(e);
                        },
                    };
                    via_handle = Some(hrec);
                },
                None => {},
            }
        }
        if valid & SETATTR_SIZE != 0 && self.session.seal_size {
            return Err(Errno::PermissionDenied);
        }
        let chmod = if valid & SETATTR_MODE != 0 {
            Some(attr.mode)
        } else {
            None
        };
        let chown = if valid & (SETATTR_UID | SETATTR_GID) != 0 {
            let uid = if valid & SETATTR_UID != 0 {
                attr.uid
            } else {
                u32::MAX
            };
            let gid = if valid & SETATTR_GID != 0 {
                attr.gid
            } else {
                u32::MAX
            };
            Some((uid, gid))
        } else {
            None
        };
        let truncate = if valid & SETATTR_SIZE != 0 {
            let reopen = match via_handle {
                Some(_) => None,
                None => {
                    if is_safe_mode(rec.mode) {
                        Some(
                            Ok(
                                open_flags_for_descriptor(
                                    self.session.writeback,
                                    self.config.allow_direct_io,
                                    O_NONBLOCK | O_RDWR,
                                ),
                            ),
                        )
                    } else {
                        Some(Err(Errno::BadDescriptor))
                    }
                },
            };
            Some(
                TruncatePlan {
                    size: attr.size,
                    clear_privileges: self.session.killpriv_v2 && valid & SETATTR_KILL_SUIDGID
                        != 0,
                    reopen,
                },
            )
        } else {
            None
        };
        let times = if valid & (SETATTR_ATIME | SETATTR_MTIME) != 0 {
            let at = if valid & SETATTR_ATIME_NOW != 0 {
                TimeUpdate::Now
            } else if valid & SETATTR_ATIME != 0 {
                TimeUpdate::At { sec: attr.atime_sec, nsec: attr.atime_nsec }
            } else {
                TimeUpdate::Leave
            };
            let mt = if valid & SETATTR_MTIME_NOW != 0 {
                TimeUpdate::Now
            } else if valid & SETATTR_MTIME != 0 {
                TimeUpdate::At { sec: attr.mtime_sec, nsec: attr.mtime_nsec }
            } else {
                TimeUpdate::Leave
            };
            Some((at, mt))
        } else {
            None
        };
        let target = match via_handle {
            Some(hr) => DescriptorRoute::ViaHandle(hr),
            None => DescriptorRoute::ViaAnchor(rec.anchor_fd),
        };
        Ok(
            SetattrPlan {
                target,
                chmod,
                chown,
                truncate,
                times,
                attr_timeout_ns: self.config.attr_timeout_ns,
            },
        )
    }
}

} // verus!
