//! Reading single elements of a DER encoding: an identifier octet, a
//! definite length in its shortest form, and the contents.
use vstd::prelude::*;

verus! {

/// One element of an encoding: its identifier octet and the range of the
/// input that its contents occupy.
#[derive(Clone, Copy, Debug, PartialEq, Eq, Structural)]
pub struct Element {
    pub tag: u8,
    pub start: usize,
    pub end: usize,
}

/// The number that a run of octets writes, most significant octet first.
pub open spec fn be_value(s: Seq<u8>) -> nat
    decreases s.len(),
{
    if s.len() == 0 {
        0
    } else {
        be_value(s.drop_last()) * 256 + s.last() as nat
    }
}

/// The length field that starts at `at`: the length it states and the number
/// of octets it takes. A length is accepted in its shortest form only, on at
/// most four octets after the first.
pub open spec fn length_at(s: Seq<u8>, at: int) -> Option<(nat, nat)> {
    if at < 0 || at >= s.len() {
        None
    } else if s[at] < 0x80 {
        Some((s[at] as nat, 1))
    } else {
        let count = s[at] - 0x80;
        if count == 0 || count > 4 || at + 1 + count > s.len() {
            None
        } else {
            let stated = be_value(s.subrange(at + 1, at + 1 + count));
            if s[at + 1] == 0 || stated < 0x80 {
                None
            } else {
                Some((stated, (1 + count) as nat))
            }
        }
    }
}

/// The element whose identifier octet stands at `at`, if a whole element
/// stands there. Identifiers that continue on further octets are not read.
#[verifier::opaque]
pub open spec fn element_at(s: Seq<u8>, at: int) -> Option<Element> {
    if at < 0 || at >= s.len() || s[at] & 0x1f == 0x1f {
        None
    } else {
        match length_at(s, at + 1) {
            Some((stated, used)) => if at + 1 + used + stated <= s.len() {
                Some(
                    Element {
                        tag: s[at],
                        start: (at + 1 + used) as usize,
                        end: (at + 1 + used + stated) as usize,
                    },
                )
            } else {
                None
            },
            None => None,
        }
    }
}

/// The element at `at`, provided that it carries the identifier `tag` and
/// ends at or before `limit`.
pub open spec fn element_within(s: Seq<u8>, at: int, tag: u8, limit: int) -> Option<Element> {
    match element_at(s, at) {
        Some(e) => if e.tag == tag && e.end <= limit {
            Some(e)
        } else {
            None
        },
        None => None,
    }
}

/// What `be_value` adds for one more octet.
pub proof fn be_value_step(s: Seq<u8>, from: int, count: int)
    requires
        0 <= from,
        0 <= count,
        from + count < s.len(),
    ensures
        be_value(s.subrange(from, from + count + 1)) == be_value(s.subrange(from, from + count))
            * 256 + s[from + count] as nat,
{
    let longer = s.subrange(from, from + count + 1);
    assert(longer.drop_last() =~= s.subrange(from, from + count));
}

/// Reads the element whose identifier octet stands at `at`.
pub fn read_element(bytes: &[u8], at: usize) -> (r: Option<Element>)
    ensures
        r == element_at(bytes@, at as int),
        r matches Some(e) ==> at < e.start <= e.end <= bytes@.len(),
{
    reveal(element_at);
    let n = bytes.len();
    if at >= n {
        return None;
    }
    let tag = bytes[at];
    if tag & 0x1f == 0x1f {
        return None;
    }
    let p = at + 1;
    if p >= n {
        return None;
    }
    let first = bytes[p];
    if first < 0x80 {
        let stated = first as usize;
        if stated > n - (p + 1) {
            return None;
        }
        return Some(Element { tag, start: p + 1, end: p + 1 + stated });
    }
    let count = (first - 0x80) as usize;
    if count == 0 || count > 4 || count > n - (p + 1) {
        return None;
    }
    if bytes[p + 1] == 0 {
        return None;
    }
    let mut value: u64 = 0;
    let mut i: usize = 0;
    while i < count
        invariant
            i <= count <= 4,
            p + 1 + count <= n,
            n == bytes@.len(),
            value == be_value(bytes@.subrange(p + 1, p + 1 + i)),
            i == 0 ==> value == 0,
            i == 1 ==> value < 0x100,
            i == 2 ==> value < 0x1_0000,
            i == 3 ==> value < 0x100_0000,
            i == 4 ==> value < 0x1_0000_0000,
        decreases count - i,
    {
        proof {
            be_value_step(bytes@, p + 1, i as int);
        }
        value = value * 256 + bytes[p + 1 + i] as u64;
        i += 1;
    }
    if value < 0x80 {
        return None;
    }
    let stated = value as usize;
    let start = p + 1 + count;
    if stated > n - start {
        return None;
    }
    Some(Element { tag, start, end: start + stated })
}

/// Reads the element at `at` and keeps it only if it carries the identifier
/// `tag` and ends at or before `limit`.
pub fn read_within(bytes: &[u8], at: usize, tag: u8, limit: usize) -> (r: Option<Element>)
    ensures
        r == element_within(bytes@, at as int, tag, limit as int),
        r matches Some(e) ==> at < e.start <= e.end <= bytes@.len() && e.end <= limit && e.tag
            == tag,
{
    match read_element(bytes, at) {
        Some(e) => if e.tag == tag && e.end <= limit {
            Some(e)
        } else {
            None
        },
        None => None,
    }
}

/// Copies a range of the input.
pub fn copy_range(bytes: &[u8], start: usize, end: usize) -> (out: Vec<u8>)
    requires
        start <= end <= bytes@.len(),
    ensures
        out@ == bytes@.subrange(start as int, end as int),
{
    let mut out: Vec<u8> = Vec::new();
    let mut i: usize = start;
    while i < end
        invariant
            start <= i <= end <= bytes@.len(),
            out@ == bytes@.subrange(start as int, i as int),
        decreases end - i,
    {
        out.push(bytes[i]);
        i += 1;
        assert(out@ =~= bytes@.subrange(start as int, i as int));
    }
    out
}

/// Whether two byte strings are equal.
pub fn same_bytes(a: &[u8], b: &[u8]) -> (r: bool)
    ensures
        r == (a@ == b@),
{
    if a.len() != b.len() {
        return false;
    }
    let mut i: usize = 0;
    while i < a.len()
        invariant
            i <= a@.len(),
            a@.len() == b@.len(),
            forall|k: int| 0 <= k < i ==> a@[k] == b@[k],
        decreases a@.len() - i,
    {
        if a[i] != b[i] {
            return false;
        }
        i += 1;
    }
    assert(a@ =~= b@);
    true
}

/// Whether a range of a sequence holds zeros only.
pub open spec fn all_zero(s: Seq<u8>, start: int, end: int) -> bool {
    forall|i: int| start <= i < end ==> #[trigger] s[i] == 0u8
}

/// Whether a range of the input holds zeros only.
pub fn is_zero_range(bytes: &[u8], start: usize, end: usize) -> (r: bool)
    requires
        start <= end <= bytes@.len(),
    ensures
        r == all_zero(bytes@, start as int, end as int),
{
    let mut i: usize = start;
    while i < end
        invariant
            start <= i <= end <= bytes@.len(),
            all_zero(bytes@, start as int, i as int),
        decreases end - i,
    {
        if bytes[i] != 0 {
            return false;
        }
        i += 1;
    }
    true
}

/// One byte string followed by another.
pub fn join(a: &[u8], b: &[u8]) -> (out: Vec<u8>)
    ensures
        out@ == a@ + b@,
{
    let mut out = copy_range(a, 0, a.len());
    assert(out@ =~= a@);
    let mut i: usize = 0;
    while i < b.len()
        invariant
            i <= b@.len(),
            out@ == a@ + b@.subrange(0, i as int),
        decreases b@.len() - i,
    {
        out.push(b[i]);
        i += 1;
        assert(out@ =~= a@ + b@.subrange(0, i as int));
    }
    assert(b@.subrange(0, b@.len() as int) =~= b@);
    out
}

} // verus!
