use vstd::prelude::*;
use vstd::string::*;
use crate::record_type::{RecordType, type_code};

verus! {

/// The byte `.` that separates labels.
pub const DOT: u8 = 46;

/// The labels of a dotted name, read left to right: every `.` ends a label, so
/// a trailing `.` leaves an empty last label (the root) and the empty name is
/// one empty label.
pub open spec fn split_dots(s: Seq<u8>) -> Seq<Seq<u8>>
    decreases s.len(),
{
    if s.len() == 0 {
        seq![Seq::<u8>::empty()]
    } else {
        let p = split_dots(s.drop_last());
        if s.last() == DOT {
            p.push(Seq::<u8>::empty())
        } else {
            p.update(p.len() - 1, p.last().push(s.last()))
        }
    }
}

/// The contents of each label.
pub open spec fn label_views(v: Seq<Vec<u8>>) -> Seq<Seq<u8>> {
    v.map_values(|l: Vec<u8>| l@)
}

/// A dotted name always has at least one label.
pub proof fn lemma_split_dots_nonempty(s: Seq<u8>)
    ensures
        split_dots(s).len() >= 1,
    decreases s.len(),
{
    if s.len() > 0 {
        lemma_split_dots_nonempty(s.drop_last());
    }
}

/// Splits a zone name on `.` into its labels.
pub fn split_labels(zone: &str) -> (r: Vec<Vec<u8>>)
    ensures
        label_views(r@) == split_dots(zone.spec_bytes()),
{
    let b = zone.as_bytes();
    let mut done: Vec<Vec<u8>> = Vec::new();
    let mut cur: Vec<u8> = Vec::new();
    let mut i: usize = 0;
    proof {
        assert(b@.take(0) =~= Seq::<u8>::empty());
    }
    while i < b.len()
        invariant
            i <= b@.len(),
            label_views(done@).push(cur@) == split_dots(b@.take(i as int)),
        decreases b@.len() - i,
    {
        let c = b[i];
        let ghost before = b@.take(i as int);
        let ghost after = b@.take(i + 1);
        assert(after.drop_last() == before);
        assert(after.last() == c);
        proof {
            lemma_split_dots_nonempty(before);
        }
        if c == DOT {
            let ghost old_done = label_views(done@);
            done.push(cur);
            cur = Vec::new();
            assert(label_views(done@) =~= old_done.push(split_dots(before).last()));
            assert(label_views(done@).push(cur@) =~= split_dots(after));
        } else {
            cur.push(c);
            assert(label_views(done@).push(cur@) =~= split_dots(after));
        }
        i = i + 1;
    }
    assert(b@.take(i as int) == b@);
    let ghost old_done = label_views(done@);
    done.push(cur);
    assert(label_views(done@) =~= old_done.push(cur@));
    done
}

/// The longest label that a length byte can announce.
pub const MAX_LABEL_LEN: usize = 255;

/// The labels, each preceded by its length byte.
pub open spec fn labels_wire(ls: Seq<Seq<u8>>) -> Seq<u8>
    decreases ls.len(),
{
    if ls.len() == 0 {
        Seq::empty()
    } else {
        labels_wire(ls.drop_last()) + seq![ls.last().len() as u8] + ls.last()
    }
}

/// The wire form of a name: its labels, ended by the empty root label unless
/// the last label is already empty.
pub open spec fn name_wire(ls: Seq<Seq<u8>>) -> Seq<u8> {
    if ls.len() > 0 && ls.last().len() == 0 {
        labels_wire(ls)
    } else {
        labels_wire(ls).push(0)
    }
}

/// Whether every label fits its length byte. Nothing else about the name is
/// checked: a name that breaks DNS's rules is sent as it is, for the server to
/// refuse.
pub open spec fn name_encodable(ls: Seq<Seq<u8>>) -> bool {
    forall|i: int| 0 <= i < ls.len() ==> #[trigger] ls[i].len() <= MAX_LABEL_LEN
}

/// Appends the bytes of `src` to `out`.
fn append_bytes(out: &mut Vec<u8>, src: &[u8])
    ensures
        final(out)@ == old(out)@ + src@,
{
    let mut i: usize = 0;
    while i < src.len()
        invariant
            i <= src@.len(),
            out@ == old(out)@ + src@.take(i as int),
        decreases src@.len() - i,
    {
        out.push(src[i]);
        assert(src@.take(i + 1) == src@.take(i as int).push(src@[i as int]));
        i = i + 1;
    }
    assert(src@.take(i as int) == src@);
}

/// The wire form of a name given by its labels, or `None` where a label is too
/// long for its length byte.
pub fn encode_name(labels: &Vec<Vec<u8>>) -> (r: Option<Vec<u8>>)
    ensures
        r is Some <==> name_encodable(label_views(labels@)),
        r matches Some(w) ==> w@ == name_wire(label_views(labels@)),
{
    let ghost ls = label_views(labels@);
    let mut out: Vec<u8> = Vec::new();
    let mut k: usize = 0;
    assert(ls.take(0) =~= Seq::<Seq<u8>>::empty());
    while k < labels.len()
        invariant
            ls == label_views(labels@),
            k <= labels@.len(),
            out@ == labels_wire(ls.take(k as int)),
            forall|i: int| 0 <= i < k ==> #[trigger] ls[i].len() <= MAX_LABEL_LEN,
        decreases labels@.len() - k,
    {
        let label = &labels[k];
        assert(ls[k as int] == label@);
        assert(ls.take(k + 1).drop_last() == ls.take(k as int));
        if label.len() > MAX_LABEL_LEN {
            return None;
        }
        out.push(label.len() as u8);
        append_bytes(&mut out, label.as_slice());
        k = k + 1;
    }
    assert(ls.take(k as int) == ls);
    if labels.len() == 0 || labels[labels.len() - 1].len() != 0 {
        out.push(0);
    }
    Some(out)
}

/// The header of a NOTIFY query: the transaction ID, opcode NOTIFY with the
/// authoritative-answer flag, one question and no records.
pub open spec fn notify_header(id: u16) -> Seq<u8> {
    seq![(id / 256) as u8, (id % 256) as u8, 0x24u8, 0u8, 0u8, 1u8, 0u8, 0u8, 0u8, 0u8, 0u8, 0u8]
}

/// The NOTIFY query with transaction ID `id` for the zone written `zone`, its
/// question of type `t` and class IN.
pub open spec fn notify_query(id: u16, zone: Seq<u8>, t: RecordType) -> Seq<u8> {
    notify_header(id) + name_wire(split_dots(zone)) + seq![
        (type_code(t) / 256) as u8,
        (type_code(t) % 256) as u8,
        0u8,
        1u8,
    ]
}

/// The bytes of the NOTIFY query with transaction ID `id` about `zone`, or
/// `None` where a label is longer than a length byte can announce.
pub fn build_notify_query(id: u16, zone: &str, record_type: RecordType) -> (r: Option<Vec<u8>>)
    ensures
        r is Some <==> name_encodable(split_dots(zone.spec_bytes())),
        r matches Some(q) ==> q@ == notify_query(id, zone.spec_bytes(), record_type),
{
    let labels = split_labels(zone);
    let name = match encode_name(&labels) {
        Some(n) => n,
        None => {
            return None;
        },
    };
    let mut out: Vec<u8> = Vec::new();
    out.push((id / 256) as u8);
    out.push((id % 256) as u8);
    out.push(0x24);
    out.push(0);
    out.push(0);
    out.push(1);
    out.push(0);
    out.push(0);
    out.push(0);
    out.push(0);
    out.push(0);
    out.push(0);
    assert(out@ == notify_header(id));
    append_bytes(&mut out, name.as_slice());
    let code = record_type.code();
    out.push((code / 256) as u8);
    out.push((code % 256) as u8);
    out.push(0);
    out.push(1);
    assert(out@ =~= notify_query(id, zone.spec_bytes(), record_type));
    Some(out)
}

/// How a received datagram answers the outstanding query.
#[derive(Clone, Copy, Debug, PartialEq, Eq, Structural)]
pub enum Evaluation {
    /// A response to the query with response code NoError.
    Succeeded,
    /// A response to the query with another response code, given here.
    FailedNegative(u8),
    /// A well-formed message that is not a response to the query: it is discarded.
    Unmatched,
    /// The bytes do not decode as a DNS message.
    Malformed,
}

/// The length of a DNS header.
pub const HEADER_LEN: usize = 12;

/// The 16-bit big-endian number at `pos`.
pub open spec fn u16_at(b: Seq<u8>, pos: int) -> int {
    b[pos] * 256 + b[pos + 1]
}

/// Where the encoded name that starts at `pos` ends, if it is well formed:
/// labels of at most 63 bytes, each after its length byte, ended by the root
/// label or by a compression pointer to an earlier offset.
pub open spec fn name_end(b: Seq<u8>, pos: int) -> Option<int>
    decreases b.len() - pos,
{
    if pos < 0 || pos >= b.len() {
        None
    } else if b[pos] == 0 {
        Some(pos + 1)
    } else if b[pos] < 64 {
        if pos + 1 + b[pos] < b.len() {
            name_end(b, pos + 1 + b[pos])
        } else {
            None
        }
    } else if b[pos] >= 192 {
        if pos + 1 < b.len() && (b[pos] - 192) * 256 + b[pos + 1] < pos {
            Some(pos + 2)
        } else {
            None
        }
    } else {
        None
    }
}

/// Where `n` questions that start at `pos` end, if all are there: each a name,
/// a type and a class.
pub open spec fn questions_end(b: Seq<u8>, pos: int, n: nat) -> Option<int>
    decreases n,
{
    if n == 0 {
        Some(pos)
    } else {
        match name_end(b, pos) {
            Some(p) => if p + 4 <= b.len() {
                questions_end(b, p + 4, (n - 1) as nat)
            } else {
                None
            },
            None => None,
        }
    }
}

/// Where `n` resource records that start at `pos` end, if all are there: each a
/// name, a type, a class, a TTL, and data of the length it gives.
pub open spec fn records_end(b: Seq<u8>, pos: int, n: nat) -> Option<int>
    decreases n,
{
    if n == 0 {
        Some(pos)
    } else {
        match name_end(b, pos) {
            Some(p) => if p + 10 <= b.len() && p + 10 + u16_at(b, p + 8) <= b.len() {
                records_end(b, p + 10 + u16_at(b, p + 8), (n - 1) as nat)
            } else {
                None
            },
            None => None,
        }
    }
}

/// Whether `b` decodes as a DNS message: a full header, then every question and
/// every answer, authority and additional record that the header's counts announce.
pub open spec fn is_well_formed(b: Seq<u8>) -> bool {
    &&& b.len() >= HEADER_LEN
    &&& questions_end(b, HEADER_LEN as int, u16_at(b, 4) as nat) matches Some(p)
        && records_end(b, p, (u16_at(b, 6) + u16_at(b, 8) + u16_at(b, 10)) as nat) is Some
}

/// Where the name at `pos` ends, if it is well formed.
fn skip_name(b: &[u8], pos: usize) -> (r: Option<usize>)
    ensures
        r matches Some(e) ==> name_end(b@, pos as int) == Some(e as int),
        r is None ==> name_end(b@, pos as int) is None,
{
    let mut p = pos;
    loop
        invariant
            name_end(b@, pos as int) == name_end(b@, p as int),
        decreases b@.len() - p,
    {
        if p >= b.len() {
            return None;
        }
        let l = b[p];
        if l == 0 {
            return Some(p + 1);
        } else if l < 64 {
            if (l as usize) < b.len() - p - 1 {
                p = p + 1 + l as usize;
            } else {
                return None;
            }
        } else if l >= 192 {
            if p < b.len() - 1 && (l as usize - 192) * 256 + (b[p + 1] as usize) < p {
                return Some(p + 2);
            } else {
                return None;
            }
        } else {
            return None;
        }
    }
}

/// Where `n` questions from `pos` end, if all are there.
fn skip_questions(b: &[u8], pos: usize, n: u16) -> (r: Option<usize>)
    ensures
        r matches Some(e) ==> questions_end(b@, pos as int, n as nat) == Some(e as int),
        r is None ==> questions_end(b@, pos as int, n as nat) is None,
{
    let mut p = pos;
    let mut left = n;
    while left > 0
        invariant
            questions_end(b@, pos as int, n as nat) == questions_end(b@, p as int, left as nat),
            p <= b@.len() || left == n,
        decreases left,
    {
        match skip_name(b, p) {
            Some(e) => {
                if e <= b.len() && b.len() - e >= 4 {
                    p = e + 4;
                } else {
                    return None;
                }
            },
            None => {
                return None;
            },
        }
        left = left - 1;
    }
    Some(p)
}

/// Where `n` resource records from `pos` end, if all are there.
fn skip_records(b: &[u8], pos: usize, n: u32) -> (r: Option<usize>)
    ensures
        r matches Some(e) ==> records_end(b@, pos as int, n as nat) == Some(e as int),
        r is None ==> records_end(b@, pos as int, n as nat) is None,
{
    let mut p = pos;
    let mut left = n;
    while left > 0
        invariant
            records_end(b@, pos as int, n as nat) == records_end(b@, p as int, left as nat),
        decreases left,
    {
        match skip_name(b, p) {
            Some(e) => {
                if e <= b.len() && b.len() - e >= 10 {
                    let len = b[e + 8] as usize * 256 + b[e + 9] as usize;
                    if len <= b.len() - e - 10 {
                        p = e + 10 + len;
                    } else {
                        return None;
                    }
                } else {
                    return None;
                }
            },
            None => {
                return None;
            },
        }
        left = left - 1;
    }
    Some(p)
}

/// Whether the bytes decode as a DNS message.
pub fn well_formed(b: &[u8]) -> (r: bool)
    ensures
        r == is_well_formed(b@),
{
    if b.len() < HEADER_LEN {
        return false;
    }
    let qd = b[4] as u16 * 256 + b[5] as u16;
    let rr = (b[6] as u32 * 256 + b[7] as u32) + (b[8] as u32 * 256 + b[9] as u32) + (b[10] as u32
        * 256 + b[11] as u32);
    match skip_questions(b, HEADER_LEN, qd) {
        Some(p) => skip_records(b, p, rr).is_some(),
        None => false,
    }
}

/// The transaction ID of a message with a full header.
pub open spec fn message_id(b: Seq<u8>) -> int {
    b[0] * 256 + b[1]
}

/// Whether a message with a full header has the response flag set.
pub open spec fn is_response(b: Seq<u8>) -> bool {
    b[2] >= 128
}

/// The response code of a message with a full header.
pub open spec fn response_code(b: Seq<u8>) -> u8 {
    (b[3] % 16) as u8
}

/// What the datagram `b` says of the query with transaction ID `id`.
pub open spec fn evaluation_of(b: Seq<u8>, id: u16) -> Evaluation {
    if !is_well_formed(b) {
        Evaluation::Malformed
    } else if message_id(b) != id || !is_response(b) {
        Evaluation::Unmatched
    } else if response_code(b) == 0 {
        Evaluation::Succeeded
    } else {
        Evaluation::FailedNegative(response_code(b))
    }
}

/// Judges a received datagram against the query with transaction ID `id`.
pub fn evaluate_response(b: &[u8], id: u16) -> (r: Evaluation)
    ensures
        r == evaluation_of(b@, id),
{
    if !well_formed(b) {
        return Evaluation::Malformed;
    }
    let got: u16 = b[0] as u16 * 256 + b[1] as u16;
    if got != id || b[2] < 128 {
        return Evaluation::Unmatched;
    }
    let code = b[3] % 16;
    if code == 0 {
        Evaluation::Succeeded
    } else {
        Evaluation::FailedNegative(code)
    }
}

} // verus!
