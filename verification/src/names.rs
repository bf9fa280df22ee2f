//! Distinguished names: the common name that a name carries.
use crate::certificate::{contents, TAG_OID, TAG_SEQUENCE, TAG_SET};
use crate::der::{copy_range, element_at, element_within, read_element, read_within, same_bytes};
use vstd::prelude::*;

verus! {

/// Contents of the object identifier 2.5.4.3 (commonName).
pub const OID_COMMON_NAME: [u8; 3] = [0x55, 0x04, 0x03];

/// What one relative distinguished name says of the common name.
pub enum NamePart {
    /// Its first attribute is the common name, with this value.
    CommonName(Seq<u8>),
    /// Its first attribute is another one; the name goes on at this place.
    Other(int),
    /// It is not a set that starts with an attribute.
    Malformed,
}

/// Reads the relative distinguished name at `at`: a set whose first member
/// is a sequence of an object identifier and one value. Only that first
/// attribute is read.
#[verifier::opaque]
pub open spec fn name_part_at(s: Seq<u8>, at: int, end: int) -> NamePart {
    let set = element_within(s, at, TAG_SET, end);
    let attribute = element_within(s, set->0.start as int, TAG_SEQUENCE, set->0.end as int);
    let id = element_within(s, attribute->0.start as int, TAG_OID, attribute->0.end as int);
    let value = element_at(s, id->0.end as int);
    if set is Some && attribute is Some && id is Some && value is Some && value->0.end
        == attribute->0.end && set->0.end > at {
        if contents(s, id->0) == OID_COMMON_NAME@ {
            NamePart::CommonName(contents(s, value->0))
        } else {
            NamePart::Other(set->0.end as int)
        }
    } else {
        NamePart::Malformed
    }
}

/// The first common name among the relative distinguished names that stand
/// from `at` to `end`.
pub open spec fn common_name_from(s: Seq<u8>, at: int, end: int) -> Option<Seq<u8>>
    decreases end - at,
{
    if at >= end {
        None
    } else {
        match name_part_at(s, at, end) {
            NamePart::CommonName(value) => Some(value),
            NamePart::Other(next) => if at < next <= end {
                common_name_from(s, next, end)
            } else {
                None
            },
            NamePart::Malformed => None,
        }
    }
}

/// The common name of an encoded name: the value of the first relative
/// distinguished name that starts with a common name. `None` where the
/// encoding is not one sequence of such names, or none has a common name
/// before a malformed one.
pub open spec fn common_name_of(name: Seq<u8>) -> Option<Seq<u8>> {
    let list = element_within(name, 0, TAG_SEQUENCE, name.len() as int);
    if list is Some && list->0.end == name.len() {
        common_name_from(name, list->0.start as int, name.len() as int)
    } else {
        None
    }
}

/// Reads the common name of an encoded name.
pub fn common_name(name: &[u8]) -> (r: Option<Vec<u8>>)
    ensures
        match r {
            Some(v) => common_name_of(name@) == Some(v@),
            None => common_name_of(name@) is None,
        },
{
    let n = name.len();
    let list = match read_within(name, 0, TAG_SEQUENCE, n) {
        Some(e) => e,
        None => { return None; },
    };
    if list.end != n {
        return None;
    }
    let mut at: usize = list.start;
    while at < n
        invariant
            list.start <= at <= n,
            n == name@.len(),
            common_name_of(name@) == common_name_from(name@, at as int, n as int),
        decreases n - at,
    {
        reveal(name_part_at);
        let set = match read_within(name, at, TAG_SET, n) {
            Some(e) => e,
            None => { return None; },
        };
        let attribute = match read_within(name, set.start, TAG_SEQUENCE, set.end) {
            Some(e) => e,
            None => { return None; },
        };
        let id = match read_within(name, attribute.start, TAG_OID, attribute.end) {
            Some(e) => e,
            None => { return None; },
        };
        let value = match read_element(name, id.end) {
            Some(e) => e,
            None => { return None; },
        };
        if value.end != attribute.end {
            return None;
        }
        if same_bytes(
            vstd::slice::slice_subrange(name, id.start, id.end),
            OID_COMMON_NAME.as_slice(),
        ) {
            return Some(copy_range(name, value.start, value.end));
        }
        at = set.end;
    }
    None
}

} // verus!
