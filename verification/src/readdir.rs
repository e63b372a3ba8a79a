//! The directory-enumeration protocol: walking a raw record buffer,
//! dropping the "." and ".." pseudo-entries, offering each remaining record
//! to a per-entry sink, and the failure policy that preserves partial
//! progress.
//!
//! The embedder acquires the buffer (repositioning the descriptor to the
//! supplied cookie and performing one bulk raw read, under the handle's
//! position lock, which it releases before any entry is processed), then
//! drives a [`DirWalk`]: [`DirWalk::next`] yields the next deliverable
//! entry, and after the sink accepts it [`DirWalk::consume`] moves past it.
//! When the sink fails, [`DirWalk::failure_propagates`] says whether the
//! failure is the caller's answer (nothing consumed yet) or is discarded in
//! favour of the entries already collected.
//!
//! [`run_listing`] is the whole call at the specification level;
//! [`lemma_sink_failure_policy`], [`lemma_full_listing`] and
//! [`lemma_chained_buffers`] state the delivery guarantees.

use vstd::prelude::*;
use crate::dirent::{
    parse_step, parse_record, records_from, visible_from, is_dot_name, lemma_visible_is_filter,
    DirEntryData, ParseStep, RecordStep, SpecDirent,
};
use crate::errno::Errno;

verus! {

/// The next deliverable record from `pos` on: pseudo-entries skipped.
pub open spec fn scan(b: Seq<u8>, pos: int) -> ParseStep
    decreases b.len() - pos,
{
    match parse_step(b, pos) {
        ParseStep::End => ParseStep::End,
        ParseStep::Malformed => ParseStep::Malformed,
        ParseStep::Rec { ent, dot, next } => if dot {
            scan(b, next)
        } else {
            ParseStep::Rec { ent, dot, next }
        },
    }
}

/// How many pseudo-entries the scan from `pos` moves past.
pub open spec fn scan_consumed(b: Seq<u8>, pos: int) -> int
    decreases b.len() - pos,
{
    match parse_step(b, pos) {
        ParseStep::Rec { ent, dot, next } => if dot {
            1 + scan_consumed(b, next)
        } else {
            0
        },
        _ => 0,
    }
}

/// No scan moves past a negative number of pseudo-entries.
pub proof fn lemma_scan_consumed_nonneg(b: Seq<u8>, pos: int)
    ensures
        scan_consumed(b, pos) >= 0,
    decreases b.len() - pos,
{
    match parse_step(b, pos) {
        ParseStep::Rec { ent, dot, next } => {
            if dot {
                lemma_scan_consumed_nonneg(b, next);
            }
        },
        _ => {},
    }
}

/// What [`DirWalk::next`] hands back.
pub enum WalkStep {
    /// The next deliverable entry; offer it to the sink.
    Entry(DirEntryData),
    /// The buffer is exhausted.
    End,
    /// The record at the current position is malformed; the whole call is
    /// an invalid-argument failure, whatever was consumed before.
    Malformed,
}

/// A walk over one bulk-read buffer of raw directory records.
pub struct DirWalk {
    buf: Vec<u8>,
    pos: usize,
    consumed: usize,
    pending: Option<usize>,
}

impl DirWalk {
    /// The buffer being walked.
    pub closed spec fn stream(&self) -> Seq<u8> {
        self.buf@
    }

    /// The byte position of the next record.
    pub closed spec fn position(&self) -> int {
        self.pos as int
    }

    /// How many records (pseudo-entries included) have been consumed.
    pub closed spec fn consumed(&self) -> int {
        self.consumed as int
    }

    /// The position after the entry most recently handed out and not yet
    /// consumed.
    pub closed spec fn pending(&self) -> Option<int> {
        match self.pending {
            Some(n) => Some(n as int),
            None => None,
        }
    }

    /// The position is inside the buffer, each consumed record took at
    /// least a header plus one byte, and a pending position is exactly the
    /// end of the deliverable record at the current position.
    pub closed spec fn wf(&self) -> bool {
        &&& self.pos <= self.buf@.len()
        &&& 20 * self.consumed <= self.pos
        &&& match self.pending {
            Some(n) => parse_step(self.buf@, self.pos as int) matches ParseStep::Rec {
                ent,
                dot,
                next,
            } && !dot && next == n as int,
            None => true,
        }
    }

    /// Begin walking a freshly read buffer.
    pub fn start(buf: Vec<u8>) -> (w: DirWalk)
        ensures
            w.wf(),
            w.stream() == buf@,
            w.position() == 0,
            w.consumed() == 0,
            w.pending() is None,
    {
        DirWalk { buf, pos: 0, consumed: 0, pending: None }
    }

    /// Move to the next deliverable entry, consuming any "." and ".."
    /// records on the way; the entry itself is not consumed until the sink
    /// accepts it.
    pub fn next(&mut self) -> (step: WalkStep)
        requires
            old(self).wf(),
            old(self).pending() is None,
        ensures
            final(self).wf(),
            final(self).stream() == old(self).stream(),
            old(self).position() <= final(self).position(),
            final(self).consumed() == old(self).consumed() + scan_consumed(
                old(self).stream(),
                old(self).position(),
            ),
            visible_from(final(self).stream(), final(self).position()) == visible_from(
                old(self).stream(),
                old(self).position(),
            ),
            ({
                let sc = scan(old(self).stream(), old(self).position());
                match step {
                    WalkStep::Entry(e) => sc matches ParseStep::Rec { ent, dot, next } && e@ == ent
                        && final(self).pending() == Some(next) && parse_step(
                        final(self).stream(),
                        final(self).position(),
                    ) == sc,
                    WalkStep::End => sc is End && final(self).pending() is None && parse_step(
                        final(self).stream(),
                        final(self).position(),
                    ) is End,
                    WalkStep::Malformed => sc is Malformed && final(self).pending() is None
                        && parse_step(final(self).stream(), final(self).position()) is Malformed,
                }
            }),
    {
        loop
            invariant
                self.wf(),
                self.pending() is None,
                self.stream() == old(self).stream(),
                old(self).position() <= self.pos as int,
                scan(self.buf@, self.pos as int) == scan(
                    old(self).stream(),
                    old(self).position(),
                ),
                visible_from(self.buf@, self.pos as int) == visible_from(
                    old(self).stream(),
                    old(self).position(),
                ),
                self.consumed + scan_consumed(self.buf@, self.pos as int) == old(self).consumed()
                    + scan_consumed(old(self).stream(), old(self).position()),
            decreases self.buf@.len() - self.pos,
        {
            match parse_record(&self.buf, self.pos) {
                RecordStep::End => {
                    return WalkStep::End;
                },
                RecordStep::Malformed => {
                    return WalkStep::Malformed;
                },
                RecordStep::Skip { next } => {
                    self.pos = next;
                    self.consumed = self.consumed + 1;
                },
                RecordStep::Entry { ent, next } => {
                    self.pending = Some(next);
                    return WalkStep::Entry(ent);
                },
            }
        }
    }

    /// The sink accepted the pending entry: move past its record.
    pub fn consume(&mut self)
        requires
            old(self).wf(),
            old(self).pending() is Some,
        ensures
            final(self).wf(),
            final(self).stream() == old(self).stream(),
            final(self).position() == old(self).pending()->Some_0,
            final(self).position() >= old(self).position() + 20,
            final(self).consumed() == old(self).consumed() + 1,
            final(self).pending() is None,
    {
        match self.pending {
            Some(n) => {
                self.pos = n;
                self.consumed = self.consumed + 1;
                self.pending = None;
            },
            None => {
                proof {
                    assert(false);
                }
            },
        }
    }

    /// When the sink fails, the failure is the caller's answer only if no
    /// record of this call was consumed yet; afterwards it is discarded,
    /// so that a later entry's failure never invalidates earlier,
    /// already-delivered entries.
    pub fn failure_propagates(&self) -> (r: bool)
        ensures
            r == (self.consumed() == 0),
    {
        self.consumed == 0
    }
}

/// Whether a listing releases an entry's reference directly after
/// resolving its identity: a plain listing's entries carry no persistent
/// remote reference, so the reference the resolve just created is given
/// back at once; the richer variant's entries do establish one.
pub fn release_ref_after_resolve(plus: bool) -> (r: bool)
    ensures
        r == !plus,
{
    !plus
}

/// Whether a listing releases an entry's reference after the sink
/// answered: only the richer variant, and only when the sink consumed
/// nothing (the reply was full), so that an entry the caller never
/// received does not leak a reference.
pub fn release_ref_after_outcome(plus: bool, consumed: usize) -> (r: bool)
    ensures
        r == (plus && consumed == 0),
{
    plus && consumed == 0
}

/// Deliver every entry of a buffer, as a sink with no size limit would see
/// them: all records except "." and "..", in order, or the
/// invalid-argument failure when the buffer is malformed anywhere.
#[verifier::loop_isolation(false)]
pub fn list_all(buf: Vec<u8>) -> (r: Result<Vec<DirEntryData>, Errno>)
    ensures
        r is Ok <==> visible_from(buf@, 0) is Some,
        r matches Ok(v) ==> {
            let vs = visible_from(buf@, 0)->Some_0;
            v@.len() == vs.len() && forall|i: int| 0 <= i < vs.len() ==> v@[i]@ == vs[i]
        },
        r is Err ==> r == Err::<Vec<DirEntryData>, Errno>(Errno::InvalidArgument),
{
    let mut walk = DirWalk::start(buf);
    let ghost b = walk.stream();
    let mut out: Vec<DirEntryData> = Vec::new();
    loop
        invariant
            walk.wf(),
            walk.pending() is None,
            walk.stream() == b,
            ({
                let rest = visible_from(b, walk.position());
                let all = visible_from(b, 0);
                &&& (rest is Some ==> all is Some && all->Some_0 == out@.map_values(
                    |e: DirEntryData| e@,
                ) + rest->Some_0)
                &&& (rest is None ==> all is None)
            }),
        decreases walk.stream().len() - walk.position(),
    {
        let step = walk.next();
        match step {
            WalkStep::End => {
                proof {
                    assert(visible_from(b, walk.position()) == Some(Seq::<SpecDirent>::empty()));
                    assert(out@.map_values(|e: DirEntryData| e@) + Seq::<SpecDirent>::empty()
                        =~= out@.map_values(|e: DirEntryData| e@));
                }
                return Ok(out);
            },
            WalkStep::Malformed => {
                proof {
                    assert(visible_from(b, walk.position()) is None);
                }
                return Err(Errno::InvalidArgument);
            },
            WalkStep::Entry(e) => {
                let ghost posr = walk.position();
                let ghost ent = e@;
                out.push(e);
                walk.consume();
                proof {
                    let f = |e: DirEntryData| e@;
                    assert(out@.map_values(f) =~= out@.drop_last().map_values(f).push(ent));
                    let rest = visible_from(b, walk.position());
                    if rest is Some {
                        assert(visible_from(b, posr) == Some(seq![ent] + rest->Some_0));
                        assert(out@.drop_last().map_values(f) + (seq![ent] + rest->Some_0)
                            =~= out@.map_values(f) + rest->Some_0);
                    } else {
                        assert(visible_from(b, posr) is None);
                    }
                }
            },
        }
    }
}

// ---------------------------------------------------------------------------
// The whole call, at the specification level
// ---------------------------------------------------------------------------

/// The sink's answer to one offered entry.
#[derive(Clone, Copy, Debug, PartialEq, Eq, Structural)]
pub enum SinkOutcome {
    /// The entry was appended to the reply.
    Accepted,
    /// The reply buffer is full; the entry was not consumed.
    Full,
    /// Resolving or appending the entry failed.
    Failed(Errno),
}

/// What one listing call comes to: the entries the sink accepted, and the
/// call's result.
pub struct ListingRun {
    pub delivered: Seq<SpecDirent>,
    pub result: Result<(), Errno>,
}

/// One listing call over the records from `pos`, with `consumed` records
/// already consumed in this call and the sink answering as `outs` says
/// (one answer per offered entry). Pseudo-entries are dropped; a malformed
/// record fails the whole call; a full reply ends it; a sink failure is
/// the call's answer only when it hits the very first record, and is
/// otherwise discarded in favour of the entries already delivered.
pub open spec fn run_listing(
    b: Seq<u8>,
    pos: int,
    consumed: int,
    outs: Seq<SinkOutcome>,
) -> ListingRun
    decreases b.len() - pos,
{
    match parse_step(b, pos) {
        ParseStep::End => ListingRun { delivered: Seq::empty(), result: Ok(()) },
        ParseStep::Malformed => ListingRun {
            delivered: Seq::empty(),
            result: Err(Errno::InvalidArgument),
        },
        ParseStep::Rec { ent, dot, next } => {
            if dot {
                run_listing(b, next, consumed + 1, outs)
            } else if outs.len() == 0 {
                ListingRun { delivered: Seq::empty(), result: Ok(()) }
            } else {
                match outs.first() {
                    SinkOutcome::Accepted => {
                        let rest = run_listing(b, next, consumed + 1, outs.drop_first());
                        ListingRun { delivered: seq![ent] + rest.delivered, result: rest.result }
                    },
                    SinkOutcome::Full => ListingRun { delivered: Seq::empty(), result: Ok(()) },
                    SinkOutcome::Failed(e) => {
                        if consumed == 0 {
                            ListingRun { delivered: Seq::empty(), result: Err(e) }
                        } else {
                            ListingRun { delivered: Seq::empty(), result: Ok(()) }
                        }
                    },
                }
            }
        },
    }
}

/// The specification run advances exactly as a driven [`DirWalk`] does.
/// Skipping pseudo-entries only consumes them; then, at the next
/// deliverable entry — the one [`DirWalk::next`] hands out — the run is
/// decided by the sink's first answer: an accepted entry is delivered and
/// the run continues past it with one more record consumed, a full reply
/// ends the run, and a failure is the call's answer exactly when nothing
/// was consumed yet (which is what [`DirWalk::failure_propagates`]
/// reports).
pub proof fn lemma_run_steps_as_walk(b: Seq<u8>, pos: int, consumed: int, outs: Seq<SinkOutcome>)
    requires
        consumed >= 0,
    ensures
        scan(b, pos) is End ==> run_listing(b, pos, consumed, outs) == (ListingRun {
            delivered: Seq::<SpecDirent>::empty(),
            result: Ok::<(), Errno>(()),
        }),
        scan(b, pos) is Malformed ==> run_listing(b, pos, consumed, outs) == (ListingRun {
            delivered: Seq::<SpecDirent>::empty(),
            result: Err::<(), Errno>(Errno::InvalidArgument),
        }),
        (scan(b, pos) is Rec && outs.len() > 0 ==> {
            let ent = scan(b, pos)->ent;
            let next = scan(b, pos)->next;
            run_listing(b, pos, consumed, outs) == (match outs.first() {
            SinkOutcome::Accepted => {
                let rest = run_listing(
                    b,
                    next,
                    consumed + scan_consumed(b, pos) + 1,
                    outs.drop_first(),
                );
                ListingRun { delivered: seq![ent] + rest.delivered, result: rest.result }
            },
            SinkOutcome::Full => ListingRun {
                delivered: Seq::<SpecDirent>::empty(),
                result: Ok::<(), Errno>(()),
            },
            SinkOutcome::Failed(e) => {
                if consumed + scan_consumed(b, pos) == 0 {
                    ListingRun { delivered: Seq::<SpecDirent>::empty(), result: Err::<(), Errno>(e) }
                } else {
                    ListingRun { delivered: Seq::<SpecDirent>::empty(), result: Ok::<(), Errno>(()) }
                }
            },
        })
        }),
    decreases b.len() - pos,
{
    match parse_step(b, pos) {
        ParseStep::End => {
        },
        ParseStep::Malformed => {
        },
        ParseStep::Rec { ent, dot, next } => {
            if dot {
                lemma_scan_consumed_nonneg(b, next);
                lemma_run_steps_as_walk(b, next, consumed + 1, outs);
            }
        },
    }
}

/// The failure policy: when the sink fails on the `k+1`-th deliverable
/// entry after accepting the first `k`, the call still succeeds with
/// exactly those `k` entries delivered, provided any record at all was
/// consumed before the failure; only a failure on the very first record of
/// the call is the caller's answer, and then nothing was delivered.
pub proof fn lemma_sink_failure_policy(
    b: Seq<u8>,
    pos: int,
    consumed: int,
    outs: Seq<SinkOutcome>,
    k: int,
)
    requires
        visible_from(b, pos) is Some,
        0 <= k < outs.len(),
        k < visible_from(b, pos)->Some_0.len(),
        forall|j: int| 0 <= j < k ==> outs[j] is Accepted,
        outs[k] is Failed,
        consumed >= 0,
    ensures
        ({
            let r = run_listing(b, pos, consumed, outs);
            let vs = visible_from(b, pos)->Some_0;
            &&& (k == 0 && consumed == 0 && scan_consumed(b, pos) == 0 ==> r.delivered
                == Seq::<SpecDirent>::empty() && r.result == Err::<(), Errno>(outs[k]->Failed_0))
            &&& (k > 0 || consumed > 0 || scan_consumed(b, pos) > 0 ==> r.result == Ok::<
                (),
                Errno,
            >(()) && r.delivered == vs.take(k))
        }),
    decreases b.len() - pos,
{
    let vs = visible_from(b, pos)->Some_0;
    match parse_step(b, pos) {
        ParseStep::End => {
            assert(vs.len() == 0);
        },
        ParseStep::Malformed => {
        },
        ParseStep::Rec { ent, dot, next } => {
            if dot {
                assert(visible_from(b, next) is Some && visible_from(b, next)->Some_0 == vs);
                lemma_scan_consumed_nonneg(b, next);
                lemma_sink_failure_policy(b, next, consumed + 1, outs, k);
            } else {
                let vs2 = visible_from(b, next)->Some_0;
                assert(vs == seq![ent] + vs2);
                if k == 0 {
                    assert(vs.take(0) =~= Seq::<SpecDirent>::empty());
                } else {
                    assert(forall|j: int|
                        0 <= j < k - 1 ==> #[trigger] outs.drop_first()[j] is Accepted);
                    lemma_sink_failure_policy(b, next, consumed + 1, outs.drop_first(), k - 1);
                    let rest = run_listing(b, next, consumed + 1, outs.drop_first());
                    assert(rest.delivered == vs2.take(k - 1));
                    assert(seq![ent] + vs2.take(k - 1) =~= vs.take(k));
                }
            }
        },
    }
}

/// A sink that accepts every offered entry sees, in order, exactly the
/// records of the buffer that are not "." or "..", and the call succeeds.
pub proof fn lemma_full_listing(b: Seq<u8>, pos: int, consumed: int, outs: Seq<SinkOutcome>)
    requires
        visible_from(b, pos) is Some,
        outs.len() >= visible_from(b, pos)->Some_0.len(),
        forall|j: int|
            0 <= j < visible_from(b, pos)->Some_0.len() ==> outs[j] is Accepted,
        consumed >= 0,
    ensures
        run_listing(b, pos, consumed, outs).result == Ok::<(), Errno>(()),
        run_listing(b, pos, consumed, outs).delivered == visible_from(b, pos)->Some_0,
    decreases b.len() - pos,
{
    let vs = visible_from(b, pos)->Some_0;
    match parse_step(b, pos) {
        ParseStep::End => {
        },
        ParseStep::Malformed => {
        },
        ParseStep::Rec { ent, dot, next } => {
            if dot {
                lemma_full_listing(b, next, consumed + 1, outs);
            } else {
                let vs2 = visible_from(b, next)->Some_0;
                assert(vs == seq![ent] + vs2);
                assert(vs.len() > 0);
                lemma_full_listing(b, next, consumed + 1, outs.drop_first());
                assert(seq![ent] + vs2 =~= vs);
            }
        },
    }
}

// ---------------------------------------------------------------------------
// Cookie-chained listings
// ---------------------------------------------------------------------------

proof fn lemma_cut_bounds(dir: Seq<SpecDirent>, cuts: Seq<int>, i: int)
    requires
        cuts.len() >= 1,
        cuts[0] == 0,
        cuts.last() == dir.len(),
        forall|j: int| 0 <= j < cuts.len() - 1 ==> #[trigger] cuts[j] <= cuts[j + 1],
        0 <= i < cuts.len(),
    ensures
        0 <= cuts[i] <= dir.len(),
{
    assert forall|n: int| 0 <= n < cuts.len() implies 0 <= cuts[n] by {
        lemma_cuts_monotone(cuts, 0, n);
    }
    lemma_cuts_monotone(cuts, i, cuts.len() - 1);
}

proof fn lemma_cuts_monotone(cuts: Seq<int>, a: int, c: int)
    requires
        forall|j: int| 0 <= j < cuts.len() - 1 ==> #[trigger] cuts[j] <= cuts[j + 1],
        0 <= a <= c < cuts.len(),
    ensures
        cuts[a] <= cuts[c],
    decreases c - a,
{
    if a < c {
        lemma_cuts_monotone(cuts, a, c - 1);
        assert(cuts[c - 1] <= cuts[c]);
    }
}

proof fn lemma_chain_prefix(dir: Seq<SpecDirent>, cuts: Seq<int>, m: int)
    requires
        cuts.len() >= 1,
        cuts[0] == 0,
        cuts.last() == dir.len(),
        forall|j: int| 0 <= j < cuts.len() - 1 ==> #[trigger] cuts[j] <= cuts[j + 1],
        0 <= m < cuts.len(),
    ensures
        Seq::new(m as nat, |i: int| dir.subrange(cuts[i], cuts[i + 1])).flatten() == dir.subrange(
            0,
            cuts[m],
        ),
        Seq::new(
            m as nat,
            |i: int| dir.subrange(cuts[i], cuts[i + 1]).filter(|e: SpecDirent| !is_dot_name(e.name)),
        ).flatten() == dir.subrange(0, cuts[m]).filter(|e: SpecDirent| !is_dot_name(e.name)),
    decreases m,
{
    broadcast use Seq::lemma_flatten_push;

    let pred = |e: SpecDirent| !is_dot_name(e.name);
    let segs = Seq::new(m as nat, |i: int| dir.subrange(cuts[i], cuts[i + 1]));
    let fsegs = Seq::new(m as nat, |i: int| dir.subrange(cuts[i], cuts[i + 1]).filter(pred));
    if m == 0 {
        assert(segs.flatten() =~= Seq::<SpecDirent>::empty());
        assert(fsegs.flatten() =~= Seq::<SpecDirent>::empty());
        assert(dir.subrange(0, 0) =~= Seq::<SpecDirent>::empty());
        assert(Seq::<SpecDirent>::empty().filter(pred) =~= Seq::<SpecDirent>::empty()) by {
            reveal_with_fuel(Seq::filter, 2);
        }
    } else {
        lemma_chain_prefix(dir, cuts, m - 1);
        lemma_cut_bounds(dir, cuts, m - 1);
        lemma_cut_bounds(dir, cuts, m);
        assert(cuts[m - 1] <= cuts[m]);
        let front = Seq::new((m - 1) as nat, |i: int| dir.subrange(cuts[i], cuts[i + 1]));
        let ffront = Seq::new(
            (m - 1) as nat,
            |i: int| dir.subrange(cuts[i], cuts[i + 1]).filter(pred),
        );
        let last = dir.subrange(cuts[m - 1], cuts[m]);
        assert(segs =~= front.push(last));
        assert(fsegs =~= ffront.push(last.filter(pred)));
        assert(segs.flatten() == front.flatten() + last);
        assert(dir.subrange(0, cuts[m - 1]) + last =~= dir.subrange(0, cuts[m]));
        assert((dir.subrange(0, cuts[m - 1]) + last).filter(pred) == dir.subrange(
            0,
            cuts[m - 1],
        ).filter(pred) + last.filter(pred)) by {
            broadcast use Seq::filter_distributes_over_add;

        }
        assert(fsegs.flatten() == ffront.flatten() + last.filter(pred));
    }
}

/// A listing chained across calls: each call's bulk read returns one
/// contiguous run of the directory's record stream, each later call taking
/// up at the cookie where the one before left off, until the stream is
/// exhausted — however the requested reply size fragments the reads. Put
/// together, the calls deliver every record of the stream that is not "."
/// or ".." exactly once, in order.
pub proof fn lemma_chained_buffers(bufs: Seq<Seq<u8>>, dir: Seq<SpecDirent>, cuts: Seq<int>)
    requires
        cuts.len() == bufs.len() + 1,
        cuts[0] == 0,
        cuts.last() == dir.len(),
        forall|j: int| 0 <= j < cuts.len() - 1 ==> #[trigger] cuts[j] <= cuts[j + 1],
        forall|i: int|
            0 <= i < bufs.len() ==> records_from(#[trigger] bufs[i], 0) == Some(
                dir.subrange(cuts[i], cuts[i + 1]),
            ),
    ensures
        Seq::new(bufs.len(), |i: int| visible_from(bufs[i], 0)->Some_0).flatten() == dir.filter(
            |e: SpecDirent| !is_dot_name(e.name),
        ),
{
    let pred = |e: SpecDirent| !is_dot_name(e.name);
    let delivered = Seq::new(bufs.len(), |i: int| visible_from(bufs[i], 0)->Some_0);
    let fsegs = Seq::new(
        bufs.len() as nat,
        |i: int| dir.subrange(cuts[i], cuts[i + 1]).filter(pred),
    );
    assert forall|i: int| 0 <= i < bufs.len() implies delivered[i] == fsegs[i] by {
        lemma_visible_is_filter(bufs[i], 0);
    }
    assert(delivered =~= fsegs);
    lemma_chain_prefix(dir, cuts, cuts.len() - 1);
    assert(dir.subrange(0, dir.len() as int) =~= dir);
}

} // verus!
