//! The engine: object table, handle table and session policy composed into
//! the decision layer of every protocol operation.
//!
//! Each `plan_*` function performs an operation's table lookups, gates and
//! argument computation, and hands the embedder exactly what the underlying
//! syscall needs; the `finish_*` and registration functions apply the
//! table updates once the embedder reports the outcome. No function here
//! performs a syscall, and none may be called while the embedder holds a
//! lock across one.

use vstd::prelude::*;
use crate::abi::{
    CAP_PERFILE_DAX, MAPPING_WRITE, OPEN_KILL_SUIDGID, O_CLOEXEC, O_CREAT, O_DIRECTORY, O_EXCL,
    O_RDONLY, O_RDWR, WRITE_KILL_SUIDGID,
};
use crate::errno::Errno;
use crate::handle_table::{HandleRecord, HandleTable};
use crate::object_table::{table_release_step, ObjectRecord, ObjectTable};
use crate::policy::{
    descriptor_open_flags, is_safe_mode, safe_mode, validate_path_component, valid_component,
    writeback_adjusted_flags,
};
use crate::session::{
    create_reply_options, create_reply_options_spec, negotiated_options, negotiates_killpriv,
    negotiates_no_open, negotiates_no_opendir, negotiates_writeback, open_reply_options,
    open_reply_options_spec, Config, SessionState,
};

verus! {

/// How an operation reaches its object: through an open handle's
/// descriptor, or through the object's path anchor.
#[derive(Debug)]
pub enum DescriptorRoute {
    /// Use the open descriptor of this handle record.
    ViaHandle(HandleRecord),
    /// Use a path synthesized from this anchor descriptor's numeric
    /// identity.
    ViaAnchor(i32),
}

/// What an open-family operation must do: open with these flags, with
/// suid/sgid preservation suppressed around the open when asked to.
#[derive(Debug)]
pub struct OpenPlan {
    /// The descriptor flags to open with: writeback-adjusted, direct I/O
    /// honoured only where allowed, always close-on-exec.
    pub open_flags: i32,
    /// Suppress suid/sgid preservation around the open, restoring it
    /// unconditionally afterwards.
    pub clear_privileges: bool,
}

/// Where a data operation finds its descriptor.
#[derive(Debug)]
pub enum DataSource {
    /// The session tracks handles: use the registered record.
    Registered(HandleRecord),
    /// The session is stateless: open a fresh descriptor with these
    /// flags, use it, and close it.
    Fresh(OpenPlan),
}

/// The engine.
pub struct FsCore {
    /// The object table.
    pub objects: ObjectTable,
    /// The handle table.
    pub handles: HandleTable,
    /// The negotiated session flags.
    pub session: SessionState,
    /// The fixed configuration.
    pub config: Config,
}

impl FsCore {
    /// Both tables are internally consistent.
    pub open spec fn wf(&self) -> bool {
        self.objects.wf() && self.handles.wf()
    }

    /// A fresh engine: empty tables, nothing negotiated. The embedder
    /// installs the exported root under the protocol's reserved
    /// identifier; ordinary identifiers start above it.
    pub fn new(config: Config) -> (c: FsCore)
        ensures
            c.wf(),
            c.objects@ == Map::<u64, ObjectRecord>::empty(),
            c.handles@ == Map::<u64, HandleRecord>::empty(),
            c.session == (SessionState {
                writeback: false,
                no_open: false,
                no_opendir: false,
                killpriv_v2: false,
                perfile_dax: false,
                seal_size: false,
                no_readdir: config.no_readdir,
            }),
            c.config == config,
            c.objects.next_id() == 2,
    {
        FsCore {
            objects: ObjectTable::new(2),
            handles: HandleTable::new(),
            session: SessionState::new(&config),
            config,
        }
    }

    /// Capability negotiation (see [`SessionState::negotiate`]).
    pub fn negotiate(&mut self, capable: u64) -> (opts: u64)
        ensures
            opts == negotiated_options(old(self).config, capable),
            final(self).session.writeback == negotiates_writeback(old(self).config, capable),
            final(self).session.no_open == negotiates_no_open(old(self).config, capable),
            final(self).session.no_opendir == negotiates_no_opendir(old(self).config, capable),
            final(self).session.killpriv_v2 == negotiates_killpriv(old(self).config, capable),
            final(self).session.perfile_dax == (capable & CAP_PERFILE_DAX != 0),
            final(self).session.seal_size == old(self).session.seal_size,
            final(self).session.no_readdir == old(self).session.no_readdir,
            final(self).objects == old(self).objects,
            final(self).handles == old(self).handles,
            final(self).config == old(self).config,
    {
        let cfg = self.config;
        self.session.negotiate(&cfg, capable)
    }

    /// Session teardown: drop every handle and every object record. The
    /// embedder closes the descriptors it handed in.
    pub fn reset(&mut self)
        requires
            old(self).wf(),
        ensures
            final(self).wf(),
            final(self).objects@ == Map::<u64, ObjectRecord>::empty(),
            final(self).handles@ == Map::<u64, HandleRecord>::empty(),
            final(self).session == old(self).session,
            final(self).config == old(self).config,
    {
        self.handles.clear();
        self.objects.clear();
    }

    // -----------------------------------------------------------------------
    // The open family
    // -----------------------------------------------------------------------

    /// Plan opening an object's descriptor for data I/O: the node-type
    /// gate refuses, as a bad descriptor, every object that is not a
    /// regular file or a directory — whatever mode bits it was created
    /// with — and a stale identifier fails the same way.
    pub fn plan_open_object(&self, id: u64, flags: u32, fuse_flags: u32) -> (r: Result<
        OpenPlan,
        Errno,
    >)
        ensures
            r is Ok <==> self.objects@.contains_key(id) && safe_mode(self.objects@[id].mode),
            r is Err ==> r == Err::<OpenPlan, Errno>(Errno::BadDescriptor),
            r matches Ok(p) ==> p.open_flags == descriptor_open_flags(
                self.session.writeback,
                self.config.allow_direct_io,
                flags as i32,
            ) && p.clear_privileges == (self.session.killpriv_v2 && fuse_flags & OPEN_KILL_SUIDGID
                != 0),
    {
        let rec = match self.objects.get(id) {
            Ok(r) => r,
            Err(e) => {
                return Err(e);
            },
        };
        if !is_safe_mode(rec.mode) {
            return Err(Errno::BadDescriptor);
        }
        Ok(
            OpenPlan {
                open_flags: crate::policy::open_flags_for_descriptor(
                    self.session.writeback,
                    self.config.allow_direct_io,
                    flags as i32,
                ),
                clear_privileges: crate::policy::open_must_clear_privileges(
                    self.session.killpriv_v2,
                    fuse_flags,
                ),
            },
        )
    }

    /// Plan an open request: not supported when the session negotiated
    /// stateless opens, otherwise as [`Self::plan_open_object`].
    pub fn plan_open(&self, id: u64, flags: u32, fuse_flags: u32) -> (r: Result<OpenPlan, Errno>)
        ensures
            self.session.no_open ==> r == Err::<OpenPlan, Errno>(Errno::NotSupported),
            !self.session.no_open ==> r == self.plan_open_object_spec(id, flags, fuse_flags),
    {
        if self.session.no_open {
            Err(Errno::NotSupported)
        } else {
            self.plan_open_object(id, flags, fuse_flags)
        }
    }

    /// What [`Self::plan_open_object`] returns.
    pub open spec fn plan_open_object_spec(&self, id: u64, flags: u32, fuse_flags: u32) -> Result<
        OpenPlan,
        Errno,
    > {
        if self.objects@.contains_key(id) && safe_mode(self.objects@[id].mode) {
            Ok(
                OpenPlan {
                    open_flags: descriptor_open_flags(
                        self.session.writeback,
                        self.config.allow_direct_io,
                        flags as i32,
                    ),
                    clear_privileges: self.session.killpriv_v2 && fuse_flags & OPEN_KILL_SUIDGID
                        != 0,
                },
            )
        } else {
            Err(Errno::BadDescriptor)
        }
    }

    /// Plan an opendir request: not supported when the session negotiated
    /// stateless directory opens; otherwise the object is opened as a
    /// directory, with no privilege clearing.
    pub fn plan_opendir(&self, id: u64, flags: u32) -> (r: Result<OpenPlan, Errno>)
        ensures
            self.session.no_opendir ==> r == Err::<OpenPlan, Errno>(Errno::NotSupported),
            !self.session.no_opendir ==> r == self.plan_open_object_spec(
                id,
                flags | (O_DIRECTORY as u32),
                0,
            ),
    {
        if self.session.no_opendir {
            Err(Errno::NotSupported)
        } else {
            self.plan_open_object(id, flags | (O_DIRECTORY as u32), 0)
        }
    }

    /// Register the descriptor a planned open produced: a fresh handle
    /// identifier, and the reply options of the policy table (direct I/O
    /// only on files, caches as the cache policy says).
    pub fn register_open(&mut self, id: u64, fd: i32, flags: u32) -> (r: (u64, u32))
        requires
            old(self).wf(),
            old(self).handles.next_handle() < u64::MAX,
        ensures
            final(self).wf(),
            ({
                let (handle, opts) = r;
                &&& handle == old(self).handles.next_handle()
                &&& !old(self).handles@.contains_key(handle)
                &&& final(self).handles@ == old(self).handles@.insert(
                    handle,
                    HandleRecord { object: id, fd, flags },
                )
                &&& opts == open_reply_options_spec(old(self).config.cache_policy, flags)
            }),
            final(self).objects == old(self).objects,
            final(self).session == old(self).session,
            final(self).config == old(self).config,
    {
        let handle = self.handles.insert(HandleRecord { object: id, fd, flags });
        let opts = open_reply_options(self.config.cache_policy, flags);
        (handle, opts)
    }

    /// Release an open handle: not supported on a stateless-open session;
    /// otherwise the handle is removed after its ownership is verified,
    /// and its record is handed back so that the embedder can close the
    /// descriptor.
    pub fn release_handle(&mut self, id: u64, handle: u64) -> (r: Result<HandleRecord, Errno>)
        requires
            old(self).wf(),
        ensures
            final(self).wf(),
            old(self).session.no_open ==> r == Err::<HandleRecord, Errno>(Errno::NotSupported)
                && final(self).handles@ == old(self).handles@,
            !old(self).session.no_open ==> {
                &&& (r is Ok <==> old(self).handles@.contains_key(handle) && old(self).handles@[handle].object == id)
                &&& (r matches Ok(rec) ==> rec == old(self).handles@[handle] && final(self).handles@ == old(self).handles@.remove(handle))
                &&& (r is Err ==> r == Err::<HandleRecord, Errno>(Errno::BadDescriptor) && final(self).handles@ == old(self).handles@)
            },
            final(self).objects == old(self).objects,
            final(self).session == old(self).session,
            final(self).config == old(self).config,
    {
        if self.session.no_open {
            Err(Errno::NotSupported)
        } else {
            self.handles.remove(handle, id)
        }
    }

    /// Release a directory handle: as [`Self::release_handle`], but gated
    /// by the stateless-opendir flag.
    pub fn release_dir_handle(&mut self, id: u64, handle: u64) -> (r: Result<HandleRecord, Errno>)
        requires
            old(self).wf(),
        ensures
            final(self).wf(),
            old(self).session.no_opendir ==> r == Err::<HandleRecord, Errno>(Errno::NotSupported)
                && final(self).handles@ == old(self).handles@,
            !old(self).session.no_opendir ==> {
                &&& (r is Ok <==> old(self).handles@.contains_key(handle) && old(self).handles@[handle].object == id)
                &&& (r matches Ok(rec) ==> rec == old(self).handles@[handle] && final(self).handles@ == old(self).handles@.remove(handle))
                &&& (r is Err ==> r == Err::<HandleRecord, Errno>(Errno::BadDescriptor) && final(self).handles@ == old(self).handles@)
            },
            final(self).objects == old(self).objects,
            final(self).session == old(self).session,
            final(self).config == old(self).config,
    {
        if self.session.no_opendir {
            Err(Errno::NotSupported)
        } else {
            self.handles.remove(handle, id)
        }
    }

    // -----------------------------------------------------------------------
    // Data and directory descriptors
    // -----------------------------------------------------------------------

    /// What [`Self::acquire_data`] returns: the registered handle on a
    /// stateful session (ownership verified), or a fresh per-operation
    /// open on a stateless one.
    pub open spec fn acquire_data_spec(&self, handle: u64, id: u64, flags: i32, stateless: bool)
        -> Result<DataSource, Errno> {
        if !stateless {
            if self.handles@.contains_key(handle) && self.handles@[handle].object == id {
                Ok(DataSource::Registered(self.handles@[handle]))
            } else {
                Err(Errno::BadDescriptor)
            }
        } else {
            if self.objects@.contains_key(id) && safe_mode(self.objects@[id].mode) {
                Ok(
                    DataSource::Fresh(
                        OpenPlan {
                            open_flags: descriptor_open_flags(
                                self.session.writeback,
                                self.config.allow_direct_io,
                                flags,
                            ),
                            clear_privileges: false,
                        },
                    ),
                )
            } else {
                Err(Errno::BadDescriptor)
            }
        }
    }

    /// Where a data operation finds its descriptor (see
    /// [`Self::acquire_data_spec`]).
    pub fn acquire_data(&self, handle: u64, id: u64, flags: i32) -> (r: Result<DataSource, Errno>)
        ensures
            r == self.acquire_data_spec(handle, id, flags, self.session.no_open),
    {
        if !self.session.no_open {
            match self.handles.get(handle, id) {
                Ok(rec) => Ok(DataSource::Registered(rec)),
                Err(e) => Err(e),
            }
        } else {
            proof {
                assert((flags as u32) as i32 == flags) by (bit_vector);
                assert(0u32 & 0x1u32 == 0u32) by (bit_vector);
            }
            match self.plan_open_object(id, flags as u32, 0) {
                Ok(p) => Ok(DataSource::Fresh(p)),
                Err(e) => Err(e),
            }
        }
    }

    /// Where a directory operation finds its descriptor: as
    /// [`Self::acquire_data`], but gated by the stateless-opendir flag and
    /// always opening a directory.
    pub fn acquire_dirdata(&self, handle: u64, id: u64, flags: i32) -> (r: Result<
        DataSource,
        Errno,
    >)
        ensures
            r == self.acquire_data_spec(handle, id, flags | O_DIRECTORY, self.session.no_opendir),
    {
        if !self.session.no_opendir {
            match self.handles.get(handle, id) {
                Ok(rec) => Ok(DataSource::Registered(rec)),
                Err(e) => Err(e),
            }
        } else {
            proof {
                assert(((flags | O_DIRECTORY) as u32) as i32 == flags | O_DIRECTORY)
                    by (bit_vector);
                assert(0u32 & 0x1u32 == 0u32) by (bit_vector);
            }
            match self.plan_open_object(id, (flags | O_DIRECTORY) as u32, 0) {
                Ok(p) => Ok(DataSource::Fresh(p)),
                Err(e) => Err(e),
            }
        }
    }

    /// Record the descriptor flags the embedder just applied to a handle.
    pub fn note_handle_flags(&mut self, handle: u64, flags: u32) -> (found: bool)
        requires
            old(self).wf(),
        ensures
            final(self).wf(),
            found == old(self).handles@.contains_key(handle),
            found ==> final(self).handles@ == old(self).handles@.insert(
                handle,
                HandleRecord { flags, ..old(self).handles@[handle] },
            ),
            !found ==> final(self).handles@ == old(self).handles@,
            final(self).objects == old(self).objects,
            final(self).session == old(self).session,
            final(self).config == old(self).config,
    {
        self.handles.set_flags(handle, flags)
    }

    // -----------------------------------------------------------------------
    // Attribute read
    // -----------------------------------------------------------------------

    /// Where an attribute read finds its object, and how long its answer
    /// may be cached: through the claimed handle when the session tracks
    /// handles and one was claimed, else through the object's anchor.
    pub fn plan_getattr(&self, id: u64, handle: Option<u64>) -> (r: Result<
        (DescriptorRoute, u64),
        Errno,
    >)
        ensures
            r is Ok <==> (self.objects@.contains_key(id) && (self.session.no_open || handle is None
                || (self.handles@.contains_key(handle->Some_0)
                && self.handles@[handle->Some_0].object == id))),
            r is Err ==> r == Err::<(DescriptorRoute, u64), Errno>(Errno::BadDescriptor),
            r matches Ok((route, timeout)) ==> timeout == self.config.attr_timeout_ns && (if !self
                .session.no_open && handle is Some {
                route matches DescriptorRoute::ViaHandle(rec) && rec
                    == self.handles@[handle->Some_0]
            } else {
                route matches DescriptorRoute::ViaAnchor(fd) && fd
                    == self.objects@[id].anchor_fd
            }),
    {
        let rec = match self.objects.get(id) {
            Ok(r) => r,
            Err(e) => {
                return Err(e);
            },
        };
        if !self.session.no_open {
            match handle {
                Some(h) => {
                    let hrec = match self.handles.get(h, id) {
                        Ok(hr) => hr,
                        Err(e) => {
                            return Err(e);
                        },
                    };
                    return Ok((DescriptorRoute::ViaHandle(hrec), self.config.attr_timeout_ns));
                },
                None => {},
            }
        }
        Ok((DescriptorRoute::ViaAnchor(rec.anchor_fd), self.config.attr_timeout_ns))
    }

    // -----------------------------------------------------------------------
    // Reference release
    // -----------------------------------------------------------------------

    /// Apply a batch of release notifications in order, handing back the
    /// records that reached zero so that the embedder closes their
    /// anchors.
    pub fn batch_forget(&mut self, requests: &Vec<(u64, u64)>) -> (removed: Vec<ObjectRecord>)
        requires
            old(self).wf(),
        ensures
            final(self).wf(),
            final(self).objects@ == batch_release_map(old(self).objects@, requests@),
            removed@ == batch_release_removed(old(self).objects@, requests@),
            final(self).handles == old(self).handles,
            final(self).session == old(self).session,
            final(self).config == old(self).config,
    {
        let mut removed: Vec<ObjectRecord> = Vec::new();
        let n = requests.len();
        let mut i: usize = 0;
        proof {
            assert(requests@.skip(0) =~= requests@);
            assert(Seq::<ObjectRecord>::empty() + batch_release_removed(
                self.objects@,
                requests@,
            ) =~= batch_release_removed(self.objects@, requests@));
        }
        while i < n
            invariant
                self.wf(),
                i <= n,
                n == requests@.len(),
                batch_release_map(old(self).objects@, requests@) == batch_release_map(
                    self.objects@,
                    requests@.skip(i as int),
                ),
                batch_release_removed(old(self).objects@, requests@) == removed@
                    + batch_release_removed(self.objects@, requests@.skip(i as int)),
                self.handles == old(self).handles,
                self.session == old(self).session,
                self.config == old(self).config,
            decreases n - i,
        {
            let (id, count) = requests[i];
            let ghost pre = self.objects@;
            let r = self.objects.release(id, count);
            proof {
                assert(requests@.skip(i as int).drop_first() =~= requests@.skip(i as int + 1));
                assert(requests@.skip(i as int).first() == requests@[i as int]);
            }
            match r {
                Some(rec) => {
                    removed.push(rec);
                    proof {
                        assert(batch_release_removed(pre, requests@.skip(i as int)) == seq![rec]
                            + batch_release_removed(self.objects@, requests@.skip(i as int + 1)));
                        assert(removed@.drop_last() + (seq![rec] + batch_release_removed(
                            self.objects@,
                            requests@.skip(i as int + 1),
                        )) =~= removed@ + batch_release_removed(
                            self.objects@,
                            requests@.skip(i as int + 1),
                        ));
                    }
                },
                None => {
                    proof {
                        assert(batch_release_removed(pre, requests@.skip(i as int))
                            == batch_release_removed(self.objects@, requests@.skip(i as int + 1)));
                    }
                },
            }
            i = i + 1;
        }
        proof {
            assert(requests@.skip(n as int) =~= Seq::<(u64, u64)>::empty());
            assert(removed@ + Seq::<ObjectRecord>::empty() =~= removed@);
        }
        removed
    }

    // -----------------------------------------------------------------------
    // Flush, mapping, listing gates
    // -----------------------------------------------------------------------

    /// Plan a descriptor-close emulation: not supported on a
    /// stateless-open session; otherwise the claimed handle's record.
    pub fn plan_flush(&self, id: u64, handle: u64) -> (r: Result<HandleRecord, Errno>)
        ensures
            self.session.no_open ==> r == Err::<HandleRecord, Errno>(Errno::NotSupported),
            !self.session.no_open ==> {
                &&& (r is Ok <==> self.handles@.contains_key(handle) && self.handles@[handle].object
                    == id)
                &&& (r matches Ok(rec) ==> rec == self.handles@[handle])
                &&& (r is Err ==> r == Err::<HandleRecord, Errno>(Errno::BadDescriptor))
            },
    {
        if self.session.no_open {
            Err(Errno::NotSupported)
        } else {
            self.handles.get(handle, id)
        }
    }

    /// Plan the descriptor for a shared-memory mapping: read-write when
    /// the mapping asks for writing, read-only otherwise, through the
    /// node-type gate as every open.
    pub fn plan_mapping_open(&self, id: u64, mapping_flags: u64) -> (r: Result<OpenPlan, Errno>)
        ensures
            r == self.plan_open_object_spec(
                id,
                (if mapping_flags & MAPPING_WRITE != 0 {
                    O_RDWR
                } else {
                    O_RDONLY
                }) as u32,
                0,
            ),
    {
        let flags = if mapping_flags & MAPPING_WRITE != 0 {
            O_RDWR
        } else {
            O_RDONLY
        };
        self.plan_open_object(id, flags as u32, 0)
    }

    /// Whether a listing request is answered empty at once: a session
    /// configured without listings, or a reply size of zero.
    pub fn listing_answers_empty(&self, size: u32) -> (r: bool)
        ensures
            r == (self.session.no_readdir || size == 0),
    {
        self.session.no_readdir || size == 0
    }

    /// Whether extended-attribute operations are served at all.
    pub fn xattr_enabled(&self) -> (r: bool)
        ensures
            r == self.config.xattr,
    {
        self.config.xattr
    }

    /// Plan an extended-attribute operation: not supported when attributes
    /// are disabled; otherwise the object's anchor, whose numeric identity
    /// the embedder turns into a path (anchors opened without read access
    /// do not support the in-descriptor attribute calls).
    pub fn plan_xattr_target(&self, id: u64) -> (r: Result<i32, Errno>)
        ensures
            !self.config.xattr ==> r == Err::<i32, Errno>(Errno::NotSupported),
            self.config.xattr ==> {
                &&& (r is Ok <==> self.objects@.contains_key(id))
                &&& (r matches Ok(fd) ==> fd == self.objects@[id].anchor_fd)
                &&& (r is Err ==> r == Err::<i32, Errno>(Errno::BadDescriptor))
            },
    {
        if !self.config.xattr {
            return Err(Errno::NotSupported);
        }
        match self.objects.get(id) {
            Ok(rec) => Ok(rec.anchor_fd),
            Err(e) => Err(e),
        }
    }

    // -----------------------------------------------------------------------
    // Creating, linking, renaming and removing entries
    // -----------------------------------------------------------------------

    /// Validate the new entry's name and find the parent's anchor; shared
    /// by every operation that creates or removes an entry under a parent.
    fn target_under_parent(&self, parent: u64, name: &[u8]) -> (r: Result<i32, Errno>)
        ensures
            r == self.target_under_parent_spec(parent, name@),
    {
        if let Err(e) = validate_path_component(name) {
            return Err(e);
        }
        match self.objects.get(parent) {
            Ok(rec) => Ok(rec.anchor_fd),
            Err(e) => Err(e),
        }
    }

    /// What [`Self::target_under_parent`] returns.
    pub open spec fn target_under_parent_spec(&self, parent: u64, name: Seq<u8>) -> Result<
        i32,
        Errno,
    > {
        if !valid_component(name) {
            Err(Errno::InvalidArgument)
        } else if !self.objects@.contains_key(parent) {
            Err(Errno::BadDescriptor)
        } else {
            Ok(self.objects@[parent].anchor_fd)
        }
    }

    /// Plan a directory creation: the parent's anchor and the mode masked
    /// by the requester's umask. The creating syscall must run with the
    /// requester's effective identity, restored unconditionally
    /// afterwards.
    pub fn plan_mkdir(&self, parent: u64, name: &[u8], mode: u32, umask: u32) -> (r: Result<
        (i32, u32),
        Errno,
    >)
        ensures
            r == (match self.target_under_parent_spec(parent, name@) {
                Ok(fd) => Ok::<(i32, u32), Errno>((fd, mode & !umask)),
                Err(e) => Err(e),
            }),
    {
        match self.target_under_parent(parent, name) {
            Ok(fd) => Ok((fd, mode & !umask)),
            Err(e) => Err(e),
        }
    }

    /// Plan a node creation: as a directory creation; the device number
    /// passes through to the syscall untouched. What the node may later
    /// be used for is not decided here: however permissive the mode bits,
    /// the node-type gate will refuse to open the result for data I/O.
    pub fn plan_mknod(&self, parent: u64, name: &[u8], mode: u32, umask: u32) -> (r: Result<
        (i32, u32),
        Errno,
    >)
        ensures
            r == (match self.target_under_parent_spec(parent, name@) {
                Ok(fd) => Ok::<(i32, u32), Errno>((fd, mode & !umask)),
                Err(e) => Err(e),
            }),
    {
        match self.target_under_parent(parent, name) {
            Ok(fd) => Ok((fd, mode & !umask)),
            Err(e) => Err(e),
        }
    }

    /// Plan a symlink creation: only the new entry's name is validated;
    /// the link target is an arbitrary path and passes through untouched.
    /// The creating syscall runs with the requester's identity.
    pub fn plan_symlink(&self, parent: u64, name: &[u8]) -> (r: Result<i32, Errno>)
        ensures
            r == self.target_under_parent_spec(parent, name@),
    {
        self.target_under_parent(parent, name)
    }

    /// Plan an entry removal.
    pub fn plan_unlink(&self, parent: u64, name: &[u8]) -> (r: Result<i32, Errno>)
        ensures
            r == self.target_under_parent_spec(parent, name@),
    {
        self.target_under_parent(parent, name)
    }

    /// Plan a directory removal; the embedder passes the remove-directory
    /// flag to the same unlinking syscall.
    pub fn plan_rmdir(&self, parent: u64, name: &[u8]) -> (r: Result<i32, Errno>)
        ensures
            r == self.target_under_parent_spec(parent, name@),
    {
        self.target_under_parent(parent, name)
    }

    /// Plan a hard-link creation: the new name validated, then the source
    /// object's anchor (the link is made through the anchor's own
    /// identity, never a path) and the new parent's anchor.
    pub fn plan_link(&self, id: u64, newparent: u64, newname: &[u8]) -> (r: Result<
        (i32, i32),
        Errno,
    >)
        ensures
            !valid_component(newname@) ==> r == Err::<(i32, i32), Errno>(Errno::InvalidArgument),
            valid_component(newname@) && !(self.objects@.contains_key(id)
                && self.objects@.contains_key(newparent)) ==> r == Err::<(i32, i32), Errno>(
                Errno::BadDescriptor,
            ),
            valid_component(newname@) && self.objects@.contains_key(id)
                && self.objects@.contains_key(newparent) ==> r == Ok::<(i32, i32), Errno>(
                (self.objects@[id].anchor_fd, self.objects@[newparent].anchor_fd),
            ),
    {
        if let Err(e) = validate_path_component(newname) {
            return Err(e);
        }
        let src = match self.objects.get(id) {
            Ok(rec) => rec,
            Err(e) => {
                return Err(e);
            },
        };
        let dst = match self.objects.get(newparent) {
            Ok(rec) => rec,
            Err(e) => {
                return Err(e);
            },
        };
        Ok((src.anchor_fd, dst.anchor_fd))
    }

    /// Plan a rename: both names validated, then both parents' anchors;
    /// the caller's rename flags (exchange, no-replace) pass through to
    /// the syscall untouched.
    pub fn plan_rename(&self, olddir: u64, oldname: &[u8], newdir: u64, newname: &[u8]) -> (r:
        Result<(i32, i32), Errno>)
        ensures
            !(valid_component(oldname@) && valid_component(newname@)) ==> r == Err::<
                (i32, i32),
                Errno,
            >(Errno::InvalidArgument),
            valid_component(oldname@) && valid_component(newname@) && !(self.objects@.contains_key(
                olddir,
            ) && self.objects@.contains_key(newdir)) ==> r == Err::<(i32, i32), Errno>(
                Errno::BadDescriptor,
            ),
            valid_component(oldname@) && valid_component(newname@) && self.objects@.contains_key(
                olddir,
            ) && self.objects@.contains_key(newdir) ==> r == Ok::<(i32, i32), Errno>(
                (self.objects@[olddir].anchor_fd, self.objects@[newdir].anchor_fd),
            ),
    {
        if let Err(e) = validate_path_component(oldname) {
            return Err(e);
        }
        if let Err(e) = validate_path_component(newname) {
            return Err(e);
        }
        let old_rec = match self.objects.get(olddir) {
            Ok(rec) => rec,
            Err(e) => {
                return Err(e);
            },
        };
        let new_rec = match self.objects.get(newdir) {
            Ok(rec) => rec,
            Err(e) => {
                return Err(e);
            },
        };
        Ok((old_rec.anchor_fd, new_rec.anchor_fd))
    }

    /// Plan a create: the new name validated, the parent's anchor, the
    /// flags of the exclusive create-and-open (writeback-adjusted, with
    /// creation, exclusivity and close-on-exec added), and the mode
    /// masked by the permission bits of the requester's umask. The
    /// syscall runs with the requester's identity. When it reports that
    /// the entry already exists and the caller did not ask for
    /// exclusivity, the embedder falls back to resolve-then-open, with
    /// [`Self::plan_open_object`] deciding that open.
    pub fn plan_create(&self, parent: u64, name: &[u8], flags: u32, mode: u32, umask: u32) -> (r:
        Result<CreatePlan, Errno>)
        ensures
            r == (match self.target_under_parent_spec(parent, name@) {
                Ok(fd) => Ok::<CreatePlan, Errno>(
                    CreatePlan {
                        parent_fd: fd,
                        create_flags: writeback_adjusted_flags(self.session.writeback, flags as i32)
                            | O_CREAT | O_EXCL | O_CLOEXEC,
                        mode: mode & !(umask & 0o777),
                    },
                ),
                Err(e) => Err(e),
            }),
    {
        match self.target_under_parent(parent, name) {
            Ok(fd) => Ok(
                CreatePlan {
                    parent_fd: fd,
                    create_flags: crate::policy::adjust_flags_for_writeback(
                        self.session.writeback,
                        flags as i32,
                    ) | O_CREAT | O_EXCL | O_CLOEXEC,
                    mode: mode & !(umask & 0o777),
                },
            ),
            Err(e) => Err(e),
        }
    }

    /// Register the descriptor a create produced: no handle on a
    /// stateless-open session (the embedder closes the descriptor), a
    /// fresh one otherwise; and the reply options of the create policy
    /// table.
    pub fn finish_create(&mut self, id: u64, fd: i32, flags: u32) -> (r: (Option<u64>, u32))
        requires
            old(self).wf(),
            old(self).handles.next_handle() < u64::MAX,
        ensures
            final(self).wf(),
            ({
                let (handle, opts) = r;
                &&& opts == create_reply_options_spec(old(self).config.cache_policy)
                &&& (old(self).session.no_open ==> handle is None && final(self).handles@ == old(self).handles@)
                &&& (!old(self).session.no_open ==> (handle matches Some(h) && h == old(self).handles.next_handle() && !old(self).handles@.contains_key(h) && final(self).handles@ == old(self).handles@.insert(
                    h,
                    HandleRecord { object: id, fd, flags },
                )))
            }),
            final(self).objects == old(self).objects,
            final(self).session == old(self).session,
            final(self).config == old(self).config,
    {
        let opts = create_reply_options(self.config.cache_policy);
        if self.session.no_open {
            (None, opts)
        } else {
            let handle = self.handles.insert(HandleRecord { object: id, fd, flags });
            (Some(handle), opts)
        }
    }

    // -----------------------------------------------------------------------
    // Data I/O
    // -----------------------------------------------------------------------

    /// Plan a read: the data descriptor, and the flag reconciliation the
    /// embedder must apply first when the request's flags differ from
    /// those last applied to the descriptor.
    pub fn plan_read(&self, id: u64, handle: u64, flags: u32) -> (r: Result<ReadPlan, Errno>)
        ensures
            r == (match self.acquire_data_spec(handle, id, O_RDONLY, self.session.no_open) {
                Ok(s) => Ok::<ReadPlan, Errno>(
                    ReadPlan {
                        source: s,
                        reconcile_flags: if stored_flags(s, O_RDONLY) != flags {
                            Some(flags)
                        } else {
                            None
                        },
                    },
                ),
                Err(e) => Err(e),
            }),
    {
        let source = match self.acquire_data(handle, id, O_RDONLY) {
            Ok(s) => s,
            Err(e) => {
                return Err(e);
            },
        };
        let stored = match &source {
            DataSource::Registered(rec) => rec.flags,
            DataSource::Fresh(_) => O_RDONLY as u32,
        };
        let reconcile_flags = if stored != flags {
            Some(flags)
        } else {
            None
        };
        Ok(ReadPlan { source, reconcile_flags })
    }

    /// Plan a write: the data descriptor, the flag reconciliation, the
    /// size-sealing check the embedder must run against the freshly read
    /// file size when sealing is active, and whether suid/sgid
    /// preservation is suppressed around the write.
    pub fn plan_write(&self, id: u64, handle: u64, flags: u32, fuse_flags: u32) -> (r: Result<
        WritePlan,
        Errno,
    >)
        ensures
            r == (match self.acquire_data_spec(handle, id, O_RDWR, self.session.no_open) {
                Ok(s) => Ok::<WritePlan, Errno>(
                    WritePlan {
                        source: s,
                        reconcile_flags: if stored_flags(s, O_RDWR) != flags {
                            Some(flags)
                        } else {
                            None
                        },
                        check_seal: self.session.seal_size,
                        clear_privileges: self.session.killpriv_v2 && fuse_flags
                            & WRITE_KILL_SUIDGID != 0,
                    },
                ),
                Err(e) => Err(e),
            }),
    {
        let source = match self.acquire_data(handle, id, O_RDWR) {
            Ok(s) => s,
            Err(e) => {
                return Err(e);
            },
        };
        let stored = match &source {
            DataSource::Registered(rec) => rec.flags,
            DataSource::Fresh(_) => O_RDWR as u32,
        };
        let reconcile_flags = if stored != flags {
            Some(flags)
        } else {
            None
        };
        Ok(
            WritePlan {
                source,
                reconcile_flags,
                check_seal: self.session.seal_size,
                clear_privileges: crate::policy::write_must_clear_privileges(
                    self.session.killpriv_v2,
                    fuse_flags,
                ),
            },
        )
    }

    /// Plan a space (de)allocation: the data descriptor and the
    /// size-sealing check. Deliberately, no privilege clearing is wired
    /// into this operation, even where the session policy would otherwise
    /// call for it on a size-increasing request: suid/sgid bits survive
    /// an allocation.
    pub fn plan_fallocate(&self, id: u64, handle: u64) -> (r: Result<FallocatePlan, Errno>)
        ensures
            r == (match self.acquire_data_spec(handle, id, O_RDWR, self.session.no_open) {
                Ok(s) => Ok::<FallocatePlan, Errno>(
                    FallocatePlan { source: s, check_seal: self.session.seal_size },
                ),
                Err(e) => Err(e),
            }),
    {
        match self.acquire_data(handle, id, O_RDWR) {
            Ok(s) => Ok(FallocatePlan { source: s, check_seal: self.session.seal_size }),
            Err(e) => Err(e),
        }
    }
}

/// The descriptor flags an operation would reconcile against: those last
/// applied to the registered handle, or those a stateless session's fresh
/// descriptor was requested with.
pub open spec fn stored_flags(s: DataSource, base: i32) -> u32 {
    match s {
        DataSource::Registered(rec) => rec.flags,
        DataSource::Fresh(p) => base as u32,
    }
}

/// What a create must do before its syscall.
#[derive(Debug)]
pub struct CreatePlan {
    /// The parent's anchor descriptor.
    pub parent_fd: i32,
    /// The flags of the exclusive create-and-open.
    pub create_flags: i32,
    /// The permission bits to create with.
    pub mode: u32,
}

/// What a read must do around its syscall.
#[derive(Debug)]
pub struct ReadPlan {
    /// Where the data descriptor comes from.
    pub source: DataSource,
    /// Apply these descriptor flags first, and record them on the handle.
    pub reconcile_flags: Option<u32>,
}

/// What a write must do around its syscall.
#[derive(Debug)]
pub struct WritePlan {
    /// Where the data descriptor comes from.
    pub source: DataSource,
    /// Apply these descriptor flags first, and record them on the handle.
    pub reconcile_flags: Option<u32>,
    /// Size sealing is active: read the file size and hold the write
    /// against the size-sealing gate before any privilege adjustment.
    pub check_seal: bool,
    /// Suppress suid/sgid preservation around the write, restoring it
    /// unconditionally afterwards.
    pub clear_privileges: bool,
}

/// What a space (de)allocation must do around its syscall.
#[derive(Debug)]
pub struct FallocatePlan {
    /// Where the data descriptor comes from.
    pub source: DataSource,
    /// Size sealing is active: hold the request against the size-sealing
    /// gate before the syscall.
    pub check_seal: bool,
}

/// The object table after a batch of release notifications.
pub open spec fn batch_release_map(
    m: Map<u64, ObjectRecord>,
    reqs: Seq<(u64, u64)>,
) -> Map<u64, ObjectRecord>
    decreases reqs.len(),
{
    if reqs.len() == 0 {
        m
    } else {
        batch_release_map(
            table_release_step(m, reqs.first().0, reqs.first().1),
            reqs.drop_first(),
        )
    }
}

/// The records a batch of release notifications removes, in order.
pub open spec fn batch_release_removed(
    m: Map<u64, ObjectRecord>,
    reqs: Seq<(u64, u64)>,
) -> Seq<ObjectRecord>
    decreases reqs.len(),
{
    if reqs.len() == 0 {
        Seq::empty()
    } else {
        let id = reqs.first().0;
        let count = reqs.first().1;
        let now = if m.contains_key(id) && m[id].refcount <= count {
            seq![m[id]]
        } else {
            Seq::<ObjectRecord>::empty()
        };
        now + batch_release_removed(table_release_step(m, id, count), reqs.drop_first())
    }
}

} // verus!
