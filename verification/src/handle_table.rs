//! The handle table: a map from protocol-visible handle identifiers to
//! open-descriptor records.
//!
//! Handle identifiers come from a monotonically increasing allocator and
//! are never reused while the engine runs: every insertion is proved to
//! return an identifier the table has never held. Every lookup verifies
//! that the handle belongs to the claimed object, rejecting cross-object
//! handle confusion.

use vstd::prelude::*;
use std::collections::HashMap;
use crate::errno::Errno;

verus! {

broadcast use vstd::std_specs::hash::group_hash_axioms;

/// The record of one open handle.
#[derive(Clone, Copy, Debug, PartialEq, Eq, Structural)]
pub struct HandleRecord {
    /// The object this handle was opened on.
    pub object: u64,
    /// The open file or directory descriptor.
    pub fd: i32,
    /// The last descriptor flags applied, so that repeated requests with
    /// unchanged flags can avoid a redundant syscall.
    pub flags: u32,
}

/// The handle table.
pub struct HandleTable {
    map: HashMap<u64, HandleRecord>,
    next_handle: u64,
}

impl View for HandleTable {
    type V = Map<u64, HandleRecord>;

    closed spec fn view(&self) -> Map<u64, HandleRecord> {
        self.map@
    }
}

impl HandleTable {
    /// No present handle identifier has reached the allocator yet.
    pub closed spec fn wf(&self) -> bool {
        forall|h: u64| #[trigger] self.map@.contains_key(h) ==> h < self.next_handle
    }

    /// The identifier the next insertion will be given.
    pub closed spec fn next_handle(&self) -> u64 {
        self.next_handle
    }

    /// An empty table. Identifiers start at one; zero is what a stateless
    /// session sends in place of a real handle.
    pub fn new() -> (t: HandleTable)
        ensures
            t@ == Map::<u64, HandleRecord>::empty(),
            t.wf(),
            t.next_handle() == 1,
    {
        HandleTable { map: HashMap::new(), next_handle: 1 }
    }

    /// Look a handle up and verify it belongs to the claimed object; a
    /// stale identifier or a mismatched owner is a bad descriptor.
    pub fn get(&self, handle: u64, object: u64) -> (r: Result<HandleRecord, Errno>)
        ensures
            r is Ok <==> (self@.contains_key(handle) && self@[handle].object == object),
            r is Ok ==> r->Ok_0 == self@[handle],
            r is Err ==> r == Err::<HandleRecord, Errno>(Errno::BadDescriptor),
    {
        match self.map.get(&handle) {
            Some(rec) => {
                if rec.object == object {
                    Ok(*rec)
                } else {
                    Err(Errno::BadDescriptor)
                }
            },
            None => Err(Errno::BadDescriptor),
        }
    }

    /// Whether the allocator has run out of identifiers; in practice the
    /// 64-bit counter never does within one run.
    pub fn exhausted(&self) -> (r: bool)
        ensures
            r == (self.next_handle() == u64::MAX),
    {
        self.next_handle == u64::MAX
    }

    /// How many handles are open.
    pub fn len(&self) -> (r: usize)
        ensures
            r == self@.len(),
    {
        self.map.len()
    }

    /// Register an open descriptor under a fresh handle identifier.
    pub fn insert(&mut self, rec: HandleRecord) -> (handle: u64)
        requires
            old(self).wf(),
            old(self).next_handle() < u64::MAX,
        ensures
            final(self).wf(),
            handle == old(self).next_handle(),
            !old(self)@.contains_key(handle),
            final(self)@ == old(self)@.insert(handle, rec),
            final(self).next_handle() == old(self).next_handle() + 1,
    {
        let handle = self.next_handle;
        self.next_handle = self.next_handle + 1;
        self.map.insert(handle, rec);
        handle
    }

    /// Record the descriptor flags last applied to a handle.
    pub fn set_flags(&mut self, handle: u64, flags: u32) -> (found: bool)
        requires
            old(self).wf(),
        ensures
            final(self).wf(),
            found == old(self)@.contains_key(handle),
            found ==> final(self)@ == old(self)@.insert(
                handle,
                HandleRecord { flags, ..old(self)@[handle] },
            ),
            !found ==> final(self)@ == old(self)@,
            final(self).next_handle() == old(self).next_handle(),
    {
        let rec = match self.map.get(&handle) {
            Some(r) => *r,
            None => {
                return false;
            },
        };
        self.map.insert(handle, HandleRecord { flags, ..rec });
        true
    }

    /// Remove a handle after verifying it belongs to the claimed object,
    /// handing the record back so that the caller can close the
    /// descriptor; a stale or mismatched handle is a bad descriptor and
    /// removes nothing.
    pub fn remove(&mut self, handle: u64, object: u64) -> (r: Result<HandleRecord, Errno>)
        requires
            old(self).wf(),
        ensures
            final(self).wf(),
            r is Ok <==> (old(self)@.contains_key(handle) && old(self)@[handle].object == object),
            r is Ok ==> r->Ok_0 == old(self)@[handle] && final(self)@ == old(self)@.remove(handle),
            r is Err ==> r == Err::<HandleRecord, Errno>(Errno::BadDescriptor) && final(self)@
                == old(self)@,
            final(self).next_handle() == old(self).next_handle(),
    {
        let rec = match self.map.get(&handle) {
            Some(r) => *r,
            None => {
                return Err(Errno::BadDescriptor);
            },
        };
        if rec.object != object {
            return Err(Errno::BadDescriptor);
        }
        self.map.remove(&handle);
        Ok(rec)
    }

    /// Drop all records; used at whole-table teardown. The embedder closes
    /// the descriptors it handed in.
    pub fn clear(&mut self)
        requires
            old(self).wf(),
        ensures
            final(self).wf(),
            final(self)@ == Map::<u64, HandleRecord>::empty(),
            final(self).next_handle() == old(self).next_handle(),
    {
        self.map.clear();
    }
}

} // verus!
