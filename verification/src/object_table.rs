//! The object table: a map from protocol-visible object identifiers to
//! identity records with lookup reference counting, and an alias index
//! from the host's raw device/inode pair to the identifier it is known
//! under.
//!
//! A record exists in the table exactly as long as its refcount is positive:
//! every resolve of the object increments the count, every release
//! notification subtracts from it (clamped, never below zero), and the
//! record is removed at the transition to zero, never before and never twice
//! for the same decrement. [`lemma_ref_lifecycle`] and
//! [`lemma_removal_at_zero`] state this for whole histories of calls.
//!
//! The alias index makes object identifiers stable: resolving an identity
//! that is already registered always yields the identifier it was
//! registered under, never a fresh one ([`lemma_identity_stable`]), which
//! is what keeps an object's identifier unchanged across renames and
//! hard links.
//!
//! Locking is the embedder's concern: it must bound each call by a short
//! critical section and perform no syscall while holding it.

use vstd::prelude::*;
use std::collections::HashMap;
use crate::abi::ROOT_OBJECT;
use crate::errno::Errno;

verus! {

broadcast use vstd::std_specs::hash::group_hash_axioms;

/// The identity record of one object.
#[derive(Clone, Copy, Debug, PartialEq, Eq, Structural)]
pub struct ObjectRecord {
    /// The path-anchoring descriptor, opened without read or write access;
    /// an anchor for `*at`-style syscalls, never used for data I/O.
    pub anchor_fd: i32,
    /// The object's cached file-mode bits, used for safety classification.
    pub mode: u32,
    /// The host filesystem's raw device number; with `ino` it identifies
    /// the on-disk object, so that hard-link aliases share one identifier.
    pub dev: u64,
    /// The host filesystem's raw inode number.
    pub ino: u64,
    /// Outstanding remote references to this object.
    pub refcount: u64,
}

/// The device/inode pair packed into one alias key.
pub open spec fn identity_key(dev: u64, ino: u64) -> u128 {
    (dev * 0x1_0000_0000_0000_0000 + ino) as u128
}

/// Pack a device/inode pair into its alias key.
pub fn pack_identity(dev: u64, ino: u64) -> (k: u128)
    ensures
        k == identity_key(dev, ino),
{
    (dev as u128) * 0x1_0000_0000_0000_0000u128 + (ino as u128)
}

/// Distinct device/inode pairs have distinct alias keys.
pub proof fn lemma_identity_key_injective(d1: u64, i1: u64, d2: u64, i2: u64)
    requires
        identity_key(d1, i1) == identity_key(d2, i2),
    ensures
        d1 == d2 && i1 == i2,
{
    assert(d1 == d2 && i1 == i2) by (nonlinear_arith)
        requires
            d1 * 0x1_0000_0000_0000_0000 + i1 == d2 * 0x1_0000_0000_0000_0000 + i2,
            i1 < 0x1_0000_0000_0000_0000,
            i2 < 0x1_0000_0000_0000_0000,
    ;
}

/// `r` with its refcount one higher, saturating at the counter's maximum.
pub open spec fn bumped(r: ObjectRecord) -> ObjectRecord {
    ObjectRecord {
        refcount: if r.refcount == u64::MAX {
            r.refcount
        } else {
            (r.refcount + 1) as u64
        },
        ..r
    }
}

/// What one release notification does to the table.
pub open spec fn table_release_step(m: Map<u64, ObjectRecord>, id: u64, count: u64) -> Map<
    u64,
    ObjectRecord,
> {
    if m.contains_key(id) {
        if m[id].refcount <= count {
            m.remove(id)
        } else {
            m.insert(id, ObjectRecord { refcount: (m[id].refcount - count) as u64, ..m[id] })
        }
    } else {
        m
    }
}

/// What one resolve does to the table: a first reference inserts the
/// record with count one, a repeated reference bumps the count.
pub open spec fn table_resolve_step(m: Map<u64, ObjectRecord>, id: u64, proto: ObjectRecord) -> Map<
    u64,
    ObjectRecord,
> {
    if m.contains_key(id) {
        m.insert(id, bumped(m[id]))
    } else {
        m.insert(id, ObjectRecord { refcount: 1u64, ..proto })
    }
}

/// The identifier one resolve yields: the one the identity is registered
/// under, or the allocator's next when the identity is new.
pub open spec fn resolved_id(ids: Map<u128, u64>, next: u64, dev: u64, ino: u64) -> u64 {
    if ids.contains_key(identity_key(dev, ino)) {
        ids[identity_key(dev, ino)]
    } else {
        next
    }
}

/// The object table.
pub struct ObjectTable {
    map: HashMap<u64, ObjectRecord>,
    alt: HashMap<u128, u64>,
    next_id: u64,
}

impl View for ObjectTable {
    type V = Map<u64, ObjectRecord>;

    closed spec fn view(&self) -> Map<u64, ObjectRecord> {
        self.map@
    }
}

impl ObjectTable {
    /// The alias index: which identifier each registered on-disk identity
    /// is known under.
    pub closed spec fn identities(&self) -> Map<u128, u64> {
        self.alt@
    }

    /// Every present record holds a positive refcount and an identifier
    /// below the allocator; records and the alias index mirror one
    /// another exactly.
    pub closed spec fn wf(&self) -> bool {
        &&& forall|k: u64|
            #[trigger] self.map@.contains_key(k) ==> self.map@[k].refcount > 0 && k < self.next_id
        &&& forall|k: u64|
            #[trigger] self.map@.contains_key(k) ==> self.alt@.contains_key(
                identity_key(self.map@[k].dev, self.map@[k].ino),
            ) && self.alt@[identity_key(self.map@[k].dev, self.map@[k].ino)] == k
        &&& forall|q: u128|
            #[trigger] self.alt@.contains_key(q) ==> self.map@.contains_key(self.alt@[q])
                && identity_key(self.map@[self.alt@[q]].dev, self.map@[self.alt@[q]].ino) == q
    }

    /// The identifier the next insertion will be given.
    pub closed spec fn next_id(&self) -> u64 {
        self.next_id
    }

    /// An empty table whose identifiers start above the given reserved
    /// value (the protocol reserves a fixed identifier for the root).
    pub fn new(first_id: u64) -> (t: ObjectTable)
        ensures
            t@ == Map::<u64, ObjectRecord>::empty(),
            t.identities() == Map::<u128, u64>::empty(),
            t.wf(),
            t.next_id() == first_id,
    {
        ObjectTable { map: HashMap::new(), alt: HashMap::new(), next_id: first_id }
    }

    /// Register the exported root in an empty table, under the protocol's
    /// reserved identifier and with two references, so that release
    /// notifications alone never drop the root's record.
    pub fn install_root(&mut self, anchor_fd: i32, mode: u32, dev: u64, ino: u64)
        requires
            old(self).wf(),
            old(self)@ == Map::<u64, ObjectRecord>::empty(),
            old(self).identities() == Map::<u128, u64>::empty(),
        ensures
            final(self).wf(),
            final(self)@ == Map::<u64, ObjectRecord>::empty().insert(
                ROOT_OBJECT,
                ObjectRecord { anchor_fd, mode, dev, ino, refcount: 2u64 },
            ),
            final(self).identities() == Map::<u128, u64>::empty().insert(
                identity_key(dev, ino),
                ROOT_OBJECT,
            ),
            final(self).next_id() == (if old(self).next_id() <= ROOT_OBJECT {
                (ROOT_OBJECT + 1) as u64
            } else {
                old(self).next_id()
            }),
    {
        if self.next_id <= ROOT_OBJECT {
            self.next_id = ROOT_OBJECT + 1;
        }
        self.map.insert(ROOT_OBJECT, ObjectRecord { anchor_fd, mode, dev, ino, refcount: 2 });
        self.alt.insert(pack_identity(dev, ino), ROOT_OBJECT);
    }

    /// Look an object up; a stale identifier is a bad descriptor.
    pub fn get(&self, id: u64) -> (r: Result<ObjectRecord, Errno>)
        ensures
            r is Ok <==> self@.contains_key(id),
            r is Ok ==> r->Ok_0 == self@[id],
            r is Err ==> r == Err::<ObjectRecord, Errno>(Errno::BadDescriptor),
    {
        match self.map.get(&id) {
            Some(rec) => Ok(*rec),
            None => Err(Errno::BadDescriptor),
        }
    }

    /// Whether an object is present.
    pub fn contains(&self, id: u64) -> (r: bool)
        ensures
            r == self@.contains_key(id),
    {
        self.map.contains_key(&id)
    }

    /// The identifier an on-disk identity is registered under, if any.
    pub fn lookup_identity(&self, dev: u64, ino: u64) -> (r: Option<u64>)
        ensures
            r == (if self.identities().contains_key(identity_key(dev, ino)) {
                Some(self.identities()[identity_key(dev, ino)])
            } else {
                None::<u64>
            }),
    {
        let key = pack_identity(dev, ino);
        match self.alt.get(&key) {
            Some(id) => Some(*id),
            None => None,
        }
    }

    /// Whether the allocator has run out of identifiers; in practice the
    /// 64-bit counter never does within one run.
    pub fn exhausted(&self) -> (r: bool)
        ensures
            r == (self.next_id() == u64::MAX),
    {
        self.next_id == u64::MAX
    }

    /// How many objects are present.
    pub fn len(&self) -> (r: usize)
        ensures
            r == self@.len(),
    {
        self.map.len()
    }

    /// Note one resolve of the object with the given on-disk identity:
    /// an already registered identity keeps its identifier and record
    /// (only the refcount is bumped, and the caller's freshly opened
    /// anchor is its own to close); a new identity is registered under a
    /// fresh identifier with one reference. `existing` reports which
    /// happened.
    pub fn resolve(&mut self, anchor_fd: i32, mode: u32, dev: u64, ino: u64) -> (r: (u64, bool))
        requires
            old(self).wf(),
            old(self).next_id() < u64::MAX,
        ensures
            final(self).wf(),
            ({
                let (id, existing) = r;
                &&& id == resolved_id(old(self).identities(), old(self).next_id(), dev, ino)
                &&& existing == old(self).identities().contains_key(identity_key(dev, ino))
                &&& final(self)@ == table_resolve_step(
                    old(self)@,
                    id,
                    ObjectRecord { anchor_fd, mode, dev, ino, refcount: 1u64 },
                )
                &&& (existing ==> old(self)@.contains_key(id) && final(self).identities() == old(
                    self,
                ).identities() && final(self).next_id() == old(self).next_id())
                &&& (!existing ==> !old(self)@.contains_key(id) && final(self).identities() == old(
                    self,
                ).identities().insert(identity_key(dev, ino), id) && final(self).next_id() == old(
                    self,
                ).next_id() + 1)
            }),
    {
        let key = pack_identity(dev, ino);
        let found = match self.alt.get(&key) {
            Some(id) => Some(*id),
            None => None,
        };
        match found {
            Some(id) => {
                let rec = match self.map.get(&id) {
                    Some(r) => *r,
                    None => {
                        proof {
                            assert(false);
                        }
                        ObjectRecord { anchor_fd, mode, dev, ino, refcount: 1 }
                    },
                };
                let newcount = if rec.refcount == u64::MAX {
                    rec.refcount
                } else {
                    rec.refcount + 1
                };
                self.map.insert(id, ObjectRecord { refcount: newcount, ..rec });
                proof {
                    assert(identity_key(rec.dev, rec.ino) == key);
                    lemma_identity_key_injective(rec.dev, rec.ino, dev, ino);
                }
                (id, true)
            },
            None => {
                let id = self.next_id;
                self.next_id = self.next_id + 1;
                self.map.insert(id, ObjectRecord { anchor_fd, mode, dev, ino, refcount: 1 });
                self.alt.insert(key, id);
                proof {
                    assert forall|q: u128| #[trigger] self.alt@.contains_key(q) implies self.map@
                        .contains_key(self.alt@[q]) && identity_key(
                        self.map@[self.alt@[q]].dev,
                        self.map@[self.alt@[q]].ino,
                    ) == q by {
                        if q != key {
                            assert(old(self).identities().contains_key(q));
                        }
                    }
                }
                (id, false)
            },
        }
    }

    /// Subtract `count` references from an object, clamped at zero; remove
    /// the record (and its identity registration) exactly when the count
    /// reaches zero, handing it back so that the caller can close the
    /// anchor descriptor. A release of an absent identifier is ignored.
    pub fn release(&mut self, id: u64, count: u64) -> (removed: Option<ObjectRecord>)
        requires
            old(self).wf(),
        ensures
            final(self).wf(),
            final(self)@ == table_release_step(old(self)@, id, count),
            removed == (if old(self)@.contains_key(id) && old(self)@[id].refcount <= count {
                Some(old(self)@[id])
            } else {
                None::<ObjectRecord>
            }),
            removed matches Some(rec) ==> final(self).identities() == old(
                self,
            ).identities().remove(identity_key(rec.dev, rec.ino)),
            removed is None ==> final(self).identities() == old(self).identities(),
            final(self).next_id() == old(self).next_id(),
    {
        let rec = match self.map.get(&id) {
            Some(r) => *r,
            None => {
                return None;
            },
        };
        if rec.refcount <= count {
            self.map.remove(&id);
            let key = pack_identity(rec.dev, rec.ino);
            self.alt.remove(&key);
            proof {
                assert forall|q: u128| #[trigger] self.alt@.contains_key(q) implies self.map@
                    .contains_key(self.alt@[q]) && identity_key(
                    self.map@[self.alt@[q]].dev,
                    self.map@[self.alt@[q]].ino,
                ) == q by {
                    assert(old(self).identities().contains_key(q));
                    assert(self.alt@[q] != id);
                }
            }
            Some(rec)
        } else {
            self.map.insert(id, ObjectRecord { refcount: rec.refcount - count, ..rec });
            None
        }
    }

    /// Drop all records; used at whole-table teardown. The embedder closes
    /// the anchor descriptors it handed in.
    pub fn clear(&mut self)
        requires
            old(self).wf(),
        ensures
            final(self).wf(),
            final(self)@ == Map::<u64, ObjectRecord>::empty(),
            final(self).identities() == Map::<u128, u64>::empty(),
            final(self).next_id() == old(self).next_id(),
    {
        self.map.clear();
        self.alt.clear();
    }
}

// ---------------------------------------------------------------------------
// Identifier stability
// ---------------------------------------------------------------------------

/// Object identifiers are stable under every path operation that keeps the
/// on-disk identity: once an identity is registered under an identifier
/// (as creating an entry leaves it), every later resolve of that identity
/// yields the same identifier — so resolving a freshly created entry by
/// name, resolving an entry after it was renamed, and resolving a new hard
/// link to it all answer with the identifier the object already had.
pub proof fn lemma_identity_stable(ids: Map<u128, u64>, next: u64, dev: u64, ino: u64, id: u64)
    requires
        ids.contains_key(identity_key(dev, ino)),
        ids[identity_key(dev, ino)] == id,
    ensures
        resolved_id(ids, next, dev, ino) == id,
{
}

/// A run of resolves of one new identity: the first resolve registers it
/// under the allocator's next identifier, and every further resolve,
/// however many there are, keeps answering with that same identifier.
pub proof fn lemma_create_then_resolve(ids: Map<u128, u64>, next: u64, dev: u64, ino: u64)
    requires
        !ids.contains_key(identity_key(dev, ino)),
    ensures
        ({
            let created = resolved_id(ids, next, dev, ino);
            let registered = ids.insert(identity_key(dev, ino), created);
            created == next && forall|n2: u64|
                resolved_id(registered, n2, dev, ino) == created
        }),
{
}

// ---------------------------------------------------------------------------
// The lifecycle law
// ---------------------------------------------------------------------------

/// One call of the lifecycle of one object: a resolve, or a release
/// notification carrying a decrement.
pub enum RefEvent {
    Resolve,
    Release(u64),
}

/// Cumulative resolves minus cumulative releases over a history.
pub open spec fn outstanding_after(es: Seq<RefEvent>) -> int
    decreases es.len(),
{
    if es.len() == 0 {
        0
    } else {
        let prev = outstanding_after(es.drop_last());
        match es.last() {
            RefEvent::Resolve => prev + 1,
            RefEvent::Release(n) => prev - n,
        }
    }
}

/// How many resolves a history holds.
pub open spec fn cumulative_resolves(es: Seq<RefEvent>) -> int
    decreases es.len(),
{
    if es.len() == 0 {
        0
    } else {
        cumulative_resolves(es.drop_last()) + (match es.last() {
            RefEvent::Resolve => 1int,
            RefEvent::Release(n) => 0int,
        })
    }
}

/// How many references a history's release notifications give back.
pub open spec fn cumulative_releases(es: Seq<RefEvent>) -> int
    decreases es.len(),
{
    if es.len() == 0 {
        0
    } else {
        cumulative_releases(es.drop_last()) + (match es.last() {
            RefEvent::Resolve => 0int,
            RefEvent::Release(n) => n as int,
        })
    }
}

/// The outstanding count is exactly cumulative resolves minus cumulative
/// releases; with [`lemma_ref_lifecycle`], an object is present in the
/// table iff its cumulative resolves exceed its cumulative releases.
pub proof fn lemma_outstanding_is_difference(es: Seq<RefEvent>)
    ensures
        outstanding_after(es) == cumulative_resolves(es) - cumulative_releases(es),
    decreases es.len(),
{
    if es.len() > 0 {
        lemma_outstanding_is_difference(es.drop_last());
    }
}

/// No prefix of the history releases more references than were resolved.
pub open spec fn never_over_released(es: Seq<RefEvent>) -> bool {
    forall|i: int| 0 <= i <= es.len() ==> #[trigger] outstanding_after(es.take(i)) >= 0
}

/// No prefix of the history holds more references than the counter can.
pub open spec fn counts_in_range(es: Seq<RefEvent>) -> bool {
    forall|i: int| 0 <= i <= es.len() ==> #[trigger] outstanding_after(es.take(i)) <= u64::MAX
}

/// The table after a history of resolve/release calls on one object.
pub open spec fn table_after_events(
    m0: Map<u64, ObjectRecord>,
    id: u64,
    proto: ObjectRecord,
    es: Seq<RefEvent>,
) -> Map<u64, ObjectRecord>
    decreases es.len(),
{
    if es.len() == 0 {
        m0
    } else {
        let prev = table_after_events(m0, id, proto, es.drop_last());
        match es.last() {
            RefEvent::Resolve => table_resolve_step(prev, id, proto),
            RefEvent::Release(n) => table_release_step(prev, id, n),
        }
    }
}

proof fn lemma_history_prefix(es: Seq<RefEvent>, i: int)
    requires
        0 <= i <= es.len(),
        never_over_released(es),
        counts_in_range(es),
    ensures
        never_over_released(es.take(i)),
        counts_in_range(es.take(i)),
    decreases es.len(),
{
    assert forall|j: int| 0 <= j <= es.take(i).len() implies #[trigger] outstanding_after(
        es.take(i).take(j),
    ) >= 0 && outstanding_after(es.take(i).take(j)) <= u64::MAX by {
        assert(es.take(i).take(j) =~= es.take(j));
        assert(outstanding_after(es.take(j)) >= 0);
        assert(outstanding_after(es.take(j)) <= u64::MAX);
    }
}

/// For every history of resolve/release calls on one object that never
/// releases more than it resolved, the object is present in the table iff
/// cumulative resolves exceed cumulative releases, its refcount is exactly
/// the difference, and no other object's record is touched.
pub proof fn lemma_ref_lifecycle(
    m0: Map<u64, ObjectRecord>,
    id: u64,
    proto: ObjectRecord,
    es: Seq<RefEvent>,
)
    requires
        !m0.contains_key(id),
        never_over_released(es),
        counts_in_range(es),
    ensures
        table_after_events(m0, id, proto, es).contains_key(id) <==> outstanding_after(es) > 0,
        table_after_events(m0, id, proto, es).contains_key(id) ==> table_after_events(
            m0,
            id,
            proto,
            es,
        )[id].refcount == outstanding_after(es),
        forall|k: u64|
            k != id ==> (#[trigger] table_after_events(m0, id, proto, es).contains_key(k)
                <==> m0.contains_key(k)),
        forall|k: u64|
            k != id && m0.contains_key(k) ==> #[trigger] table_after_events(
                m0,
                id,
                proto,
                es,
            )[k] == m0[k],
    decreases es.len(),
{
    if es.len() > 0 {
        let prefix = es.drop_last();
        assert(never_over_released(prefix) && counts_in_range(prefix)) by {
            lemma_history_prefix(es, es.len() - 1);
            assert(es.take(es.len() - 1) =~= prefix);
        }
        lemma_ref_lifecycle(m0, id, proto, prefix);
        assert(es.take(es.len() as int) =~= es);
        assert(outstanding_after(es.take(es.len() as int)) >= 0);
        assert(outstanding_after(es.take(es.len() as int)) <= u64::MAX);
    }
}

/// A record is removed by exactly the call that takes the outstanding
/// count to zero.
pub proof fn lemma_removal_at_zero(
    m0: Map<u64, ObjectRecord>,
    id: u64,
    proto: ObjectRecord,
    es: Seq<RefEvent>,
    i: int,
)
    requires
        !m0.contains_key(id),
        never_over_released(es),
        counts_in_range(es),
        0 <= i < es.len(),
    ensures
        ({
            let before = table_after_events(m0, id, proto, es.take(i));
            let after = table_after_events(m0, id, proto, es.take(i + 1));
            (before.contains_key(id) && !after.contains_key(id)) <==> (outstanding_after(
                es.take(i),
            ) > 0 && outstanding_after(es.take(i + 1)) == 0)
        }),
{
    lemma_history_prefix(es, i);
    lemma_history_prefix(es, i + 1);
    lemma_ref_lifecycle(m0, id, proto, es.take(i));
    lemma_ref_lifecycle(m0, id, proto, es.take(i + 1));
    assert(outstanding_after(es.take(i + 1)) >= 0);
}

} // verus!
