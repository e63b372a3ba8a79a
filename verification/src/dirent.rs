//! The raw directory-record format: a sequence of fixed-header,
//! variable-length records as the host kernel writes them into a bulk-read
//! buffer.
//!
//! Each record carries, little-endian: a raw identity number (8 bytes), a
//! continuation cookie naming the position after the entry (8 bytes), a
//! record length used to advance to the next record (2 bytes, may include
//! alignment padding), an entry-type tag (1 byte), and a name padded with
//! trailing zero bytes that must be trimmed before use. The record-length
//! field is kernel-provided but treated as untrusted: every bound is
//! checked, and a record that does not fit is reported malformed rather
//! than trusted.

use vstd::prelude::*;

verus! {

/// Byte length of a record's fixed header.
pub const DIRENT_HEADER_LEN: usize = 19;

/// The little-endian 16-bit value at `i`.
pub open spec fn le16_at(b: Seq<u8>, i: int) -> int {
    b[i] + 0x100 * b[i + 1]
}

/// The little-endian 64-bit value at `i`.
pub open spec fn le64_at(b: Seq<u8>, i: int) -> int {
    b[i] + 0x100 * b[i + 1] + 0x1_0000 * b[i + 2] + 0x100_0000 * b[i + 3] + 0x1_0000_0000 * b[i + 4]
        + 0x100_0000_0000 * b[i + 5] + 0x1_0000_0000_0000 * b[i + 6] + 0x100_0000_0000_0000 * b[i
        + 7]
}

/// A name with its zero-byte padding removed: everything before the first
/// zero byte (or the whole name, when no zero byte is present).
pub open spec fn trimmed_name(s: Seq<u8>) -> Seq<u8>
    decreases s.len(),
{
    if s.len() == 0 {
        Seq::empty()
    } else if s[0] == 0 {
        Seq::empty()
    } else {
        seq![s[0]] + trimmed_name(s.drop_first())
    }
}

/// Whether the raw (still padded) name bytes are those of a "." or ".."
/// pseudo-entry.
pub open spec fn is_dot_prefixed(raw: Seq<u8>) -> bool {
    (raw.len() >= 2 && raw[0] == 46 && raw[1] == 0) || (raw.len() >= 3 && raw[0] == 46 && raw[1]
        == 46 && raw[2] == 0)
}

/// Whether a trimmed name is "." or "..".
pub open spec fn is_dot_name(name: Seq<u8>) -> bool {
    name == seq![46u8] || name == seq![46u8, 46u8]
}

/// One parsed directory record, at the specification level.
pub struct SpecDirent {
    /// The raw identity number from the kernel buffer.
    pub ino: u64,
    /// The continuation cookie: the position after this entry, opaque to
    /// everyone but the kernel.
    pub cookie: u64,
    /// The entry-type tag.
    pub kind: u8,
    /// The trimmed name.
    pub name: Seq<u8>,
}

/// What stands at one position of a record buffer.
pub enum ParseStep {
    /// The position is exactly the end of the buffer.
    End,
    /// No well-formed record stands here.
    Malformed,
    /// A record; `dot` marks the "." and ".." pseudo-entries, `next` is the
    /// position of the following record.
    Rec { ent: SpecDirent, dot: bool, next: int },
}

/// Parse the record at `pos`. The header must fit, the record length must
/// cover the header plus at least one name byte and stay inside the
/// buffer, and the name of every real entry must carry at least one zero
/// byte of padding; "." and ".." records are recognized on the raw bytes,
/// before any further validation.
pub open spec fn parse_step(b: Seq<u8>, pos: int) -> ParseStep {
    if pos == b.len() {
        ParseStep::End
    } else if pos + DIRENT_HEADER_LEN > b.len() {
        ParseStep::Malformed
    } else {
        let reclen = le16_at(b, pos + 16);
        if reclen < DIRENT_HEADER_LEN + 1 || pos + reclen > b.len() {
            ParseStep::Malformed
        } else {
            let raw = b.subrange(pos + DIRENT_HEADER_LEN, pos + reclen);
            let ent = SpecDirent {
                ino: le64_at(b, pos) as u64,
                cookie: le64_at(b, pos + 8) as u64,
                kind: b[pos + 18],
                name: trimmed_name(raw),
            };
            if is_dot_prefixed(raw) {
                ParseStep::Rec { ent, dot: true, next: pos + reclen }
            } else if !raw.contains(0u8) {
                ParseStep::Malformed
            } else {
                ParseStep::Rec { ent, dot: false, next: pos + reclen }
            }
        }
    }
}

/// All records from `pos` on, pseudo-entries included; `None` when the
/// buffer is malformed anywhere behind `pos`.
pub open spec fn records_from(b: Seq<u8>, pos: int) -> Option<Seq<SpecDirent>>
    decreases b.len() - pos,
{
    match parse_step(b, pos) {
        ParseStep::End => Some(Seq::empty()),
        ParseStep::Malformed => None,
        ParseStep::Rec { ent, dot, next } => match records_from(b, next) {
            None => None,
            Some(rest) => Some(seq![ent] + rest),
        },
    }
}

/// The entries a listing delivers from `pos` on: all records except the
/// "." and ".." pseudo-entries; `None` when the buffer is malformed.
pub open spec fn visible_from(b: Seq<u8>, pos: int) -> Option<Seq<SpecDirent>>
    decreases b.len() - pos,
{
    match parse_step(b, pos) {
        ParseStep::End => Some(Seq::empty()),
        ParseStep::Malformed => None,
        ParseStep::Rec { ent, dot, next } => match visible_from(b, next) {
            None => None,
            Some(rest) => if dot {
                Some(rest)
            } else {
                Some(seq![ent] + rest)
            },
        },
    }
}

proof fn lemma_trim_at(s: Seq<u8>, i: int)
    requires
        0 <= i < s.len(),
        s[i] == 0,
        forall|j: int| 0 <= j < i ==> s[j] != 0,
    ensures
        trimmed_name(s) == s.take(i),
    decreases i,
{
    if i == 0 {
        assert(trimmed_name(s) =~= s.take(0));
    } else {
        lemma_trim_at(s.drop_first(), i - 1);
        assert(seq![s[0]] + s.drop_first().take(i - 1) =~= s.take(i));
    }
}

/// The pseudo-entry check on the raw bytes agrees with the trimmed name
/// being "." or "..", for every raw name that carries the padding the
/// format requires of real entries.
pub proof fn lemma_dot_prefix_names_dot(raw: Seq<u8>)
    requires
        raw.contains(0u8) || is_dot_prefixed(raw),
    ensures
        is_dot_prefixed(raw) <==> is_dot_name(trimmed_name(raw)),
{
    if is_dot_prefixed(raw) {
        if raw.len() >= 2 && raw[0] == 46 && raw[1] == 0 {
            lemma_trim_at(raw, 1);
            assert(raw.take(1) =~= seq![46u8]);
        } else {
            lemma_trim_at(raw, 2);
            assert(raw.take(2) =~= seq![46u8, 46u8]);
        }
    } else {
        let i = choose|i: int| 0 <= i < raw.len() && raw[i] == 0;
        let first = first_zero_index(raw, i);
        lemma_trim_at(raw, first);
        let t = raw.take(first);
        if t == seq![46u8] {
            assert(t.len() == 1);
            assert(first == 1);
            assert(raw[0] == t[0]);
            assert(raw[0] == 46 && raw[1] == 0 && raw.len() >= 2);
            assert(is_dot_prefixed(raw));
        }
        if t == seq![46u8, 46u8] {
            assert(t.len() == 2);
            assert(first == 2);
            assert(raw[0] == t[0] && raw[1] == t[1]);
            assert(raw[0] == 46 && raw[1] == 46 && raw[2] == 0 && raw.len() >= 3);
            assert(is_dot_prefixed(raw));
        }
    }
}

/// The least zero position at or below a known zero position.
proof fn first_zero_index(s: Seq<u8>, i: int) -> (r: int)
    requires
        0 <= i < s.len(),
        s[i] == 0,
    ensures
        0 <= r < s.len(),
        s[r] == 0,
        forall|j: int| 0 <= j < r ==> s[j] != 0,
    decreases i,
{
    if exists|j: int| 0 <= j < i && s[j] == 0 {
        let j = choose|j: int| 0 <= j < i && s[j] == 0;
        first_zero_index(s, j)
    } else {
        i
    }
}

/// Dropping pseudo-entries commutes with collecting all records: the
/// visible entries are exactly the records whose name is not "." or "..".
pub proof fn lemma_visible_is_filter(b: Seq<u8>, pos: int)
    requires
        records_from(b, pos) is Some,
    ensures
        visible_from(b, pos) == Some(
            records_from(b, pos)->Some_0.filter(|e: SpecDirent| !is_dot_name(e.name)),
        ),
    decreases b.len() - pos,
{
    let pred = |e: SpecDirent| !is_dot_name(e.name);
    match parse_step(b, pos) {
        ParseStep::End => {
            assert(records_from(b, pos)->Some_0.filter(pred) =~= Seq::<SpecDirent>::empty()) by {
                reveal_with_fuel(Seq::filter, 2);
            }
        },
        ParseStep::Malformed => {
        },
        ParseStep::Rec { ent, dot, next } => {
            lemma_visible_is_filter(b, next);
            let rest = records_from(b, next)->Some_0;
            let reclen = le16_at(b, pos + 16);
            let raw = b.subrange(pos + DIRENT_HEADER_LEN, pos + reclen);
            lemma_dot_prefix_names_dot(raw);
            assert(dot == is_dot_name(ent.name));
            assert((seq![ent] + rest).filter(pred) == seq![ent].filter(pred) + rest.filter(pred))
                by {
                broadcast use Seq::filter_distributes_over_add;

            }
            assert(seq![ent].filter(pred) =~= if is_dot_name(ent.name) {
                Seq::<SpecDirent>::empty()
            } else {
                seq![ent]
            }) by {
                reveal_with_fuel(Seq::filter, 3);
                assert(seq![ent].drop_last() =~= Seq::<SpecDirent>::empty());
            }
        },
    }
}

// ---------------------------------------------------------------------------
// The executable parser
// ---------------------------------------------------------------------------

/// One parsed directory record.
#[derive(Debug)]
pub struct DirEntryData {
    /// The raw identity number from the kernel buffer. A listing never
    /// reports it to the remote side; identities are re-resolved.
    pub ino: u64,
    /// The continuation cookie: passed through unmodified, never computed.
    pub cookie: u64,
    /// The entry-type tag.
    pub kind: u8,
    /// The trimmed name.
    pub name: Vec<u8>,
}

impl View for DirEntryData {
    type V = SpecDirent;

    open spec fn view(&self) -> SpecDirent {
        SpecDirent { ino: self.ino, cookie: self.cookie, kind: self.kind, name: self.name@ }
    }
}

/// What the executable parser found at one position.
pub enum RecordStep {
    /// The end of the buffer.
    End,
    /// No well-formed record stands here.
    Malformed,
    /// A "." or ".." record to drop; `next` is the following position.
    Skip { next: usize },
    /// A real record; `next` is the following position.
    Entry { ent: DirEntryData, next: usize },
}

fn read_u16_le(buf: &Vec<u8>, pos: usize) -> (r: u16)
    requires
        pos + 2 <= buf@.len(),
    ensures
        r == le16_at(buf@, pos as int),
{
    let n = buf.len();
    (buf[pos] as u16) + (buf[pos + 1] as u16) * 0x100
}

fn read_u64_le(buf: &Vec<u8>, pos: usize) -> (r: u64)
    requires
        pos + 8 <= buf@.len(),
    ensures
        r == le64_at(buf@, pos as int),
{
    let n = buf.len();
    (buf[pos] as u64) + (buf[pos + 1] as u64) * 0x100 + (buf[pos + 2] as u64) * 0x1_0000 + (buf[pos
        + 3] as u64) * 0x100_0000 + (buf[pos + 4] as u64) * 0x1_0000_0000 + (buf[pos + 5] as u64)
        * 0x100_0000_0000 + (buf[pos + 6] as u64) * 0x1_0000_0000_0000 + (buf[pos + 7] as u64)
        * 0x100_0000_0000_0000
}

/// Parse the record at `pos`, exactly as [`parse_step`] describes it.
pub fn parse_record(buf: &Vec<u8>, pos: usize) -> (step: RecordStep)
    requires
        pos <= buf@.len(),
    ensures
        ({
            let ps = parse_step(buf@, pos as int);
            &&& (ps is End ==> step is End)
            &&& (ps is Malformed ==> step is Malformed)
            &&& (ps matches ParseStep::Rec { ent, dot, next } ==> if dot {
                step matches RecordStep::Skip { next: enext } && enext == next
            } else {
                step matches RecordStep::Entry { ent: e, next: enext } && e@ == ent && enext == next
            })
        }),
{
    let n = buf.len();
    if pos == n {
        return RecordStep::End;
    }
    if n - pos < DIRENT_HEADER_LEN {
        return RecordStep::Malformed;
    }
    let reclen = read_u16_le(buf, pos + 16) as usize;
    if reclen < DIRENT_HEADER_LEN + 1 || reclen > n - pos {
        return RecordStep::Malformed;
    }
    let name_off = pos + DIRENT_HEADER_LEN;
    let name_len = reclen - DIRENT_HEADER_LEN;
    let next = pos + reclen;
    let ghost raw = buf@.subrange(name_off as int, next as int);
    assert(raw.len() == name_len);
    assert(forall|k: int| 0 <= k < name_len ==> raw[k] == buf@[name_off + k]);
    let dot = (name_len >= 2 && buf[name_off] == 46 && buf[name_off + 1] == 0) || (name_len >= 3
        && buf[name_off] == 46 && buf[name_off + 1] == 46 && buf[name_off + 2] == 0);
    assert(dot == is_dot_prefixed(raw));
    if dot {
        return RecordStep::Skip { next };
    }
    // Find the first zero byte of the padding; a name without one is
    // malformed.
    let mut i: usize = 0;
    while i < name_len && buf[name_off + i] != 0
        invariant
            0 <= i <= name_len,
            name_off + name_len <= n,
            n == buf@.len(),
            raw == buf@.subrange(name_off as int, name_off + name_len),
            forall|j: int| 0 <= j < i ==> raw[j] != 0,
        decreases name_len - i,
    {
        i = i + 1;
    }
    if i == name_len {
        assert(!raw.contains(0u8)) by {
            assert(forall|j: int| 0 <= j < raw.len() ==> raw[j] != 0);
        }
        return RecordStep::Malformed;
    }
    assert(raw[i as int] == 0);
    assert(raw.contains(0u8));
    proof {
        lemma_trim_at(raw, i as int);
    }
    let mut name: Vec<u8> = Vec::new();
    let mut j: usize = 0;
    while j < i
        invariant
            0 <= j <= i,
            i < name_len,
            name_off + name_len <= n,
            n == buf@.len(),
            raw == buf@.subrange(name_off as int, name_off + name_len),
            name@.len() == j,
            forall|k: int| 0 <= k < j ==> name@[k] == raw[k],
        decreases i - j,
    {
        name.push(buf[name_off + j]);
        j = j + 1;
    }
    assert(name@ =~= raw.take(i as int));
    let ent = DirEntryData {
        ino: read_u64_le(buf, pos),
        cookie: read_u64_le(buf, pos + 8),
        kind: buf[pos + 18],
        name,
    };
    RecordStep::Entry { ent, next }
}

} // verus!
