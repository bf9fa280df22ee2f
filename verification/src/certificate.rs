//! X.509 certificates of the shape that AMD issues: the fields that chain and
//! report verification read, taken from the DER encoding.
use crate::der::{copy_range, element_at, element_within, read_element, read_within, Element};
use crate::time::{parse_seconds, seconds_of};
use vstd::prelude::*;

verus! {

/// Identifier octet of a BOOLEAN.
pub const TAG_BOOLEAN: u8 = 0x01;

/// Identifier octet of an INTEGER.
pub const TAG_INTEGER: u8 = 0x02;

/// Identifier octet of a BIT STRING.
pub const TAG_BIT_STRING: u8 = 0x03;

/// Identifier octet of an OCTET STRING.
pub const TAG_OCTET_STRING: u8 = 0x04;

/// Identifier octet of an OBJECT IDENTIFIER.
pub const TAG_OID: u8 = 0x06;

/// Identifier octet of a SEQUENCE.
pub const TAG_SEQUENCE: u8 = 0x30;

/// Identifier octet of a SET.
pub const TAG_SET: u8 = 0x31;

/// Identifier octet of the explicit tag 0, which holds a certificate's version.
pub const TAG_VERSION: u8 = 0xa0;

/// Identifier octet of the explicit tag 3, which holds a certificate's extensions.
pub const TAG_EXTENSIONS: u8 = 0xa3;

/// Why an encoding was not read as a certificate.
#[derive(Clone, Copy, Debug, PartialEq, Eq, Structural)]
pub enum CertificateError {
    /// The three outer parts (body, algorithm, signature) are not there.
    Frame,
    /// The body's fields are not there in their order.
    Body,
    /// The validity period does not state two valid times.
    Validity,
    /// The subject's public key is not there.
    PublicKey,
    /// The signature algorithm is not there, or the body names another.
    Algorithm,
    /// The extensions are not a list of extensions.
    Extensions,
}

/// An extension as contracts see it.
pub struct ExtensionView {
    pub id: Seq<u8>,
    pub critical: bool,
    pub value: Seq<u8>,
}

/// A certificate as contracts see it.
pub struct CertificateView {
    pub tbs: Seq<u8>,
    pub serial: Seq<u8>,
    pub signature_algorithm: Seq<u8>,
    pub signature: Seq<u8>,
    pub issuer: Seq<u8>,
    pub subject: Seq<u8>,
    pub not_before: u64,
    pub not_after: u64,
    pub key_algorithm: Seq<u8>,
    pub key_parameters: Seq<u8>,
    pub public_key: Seq<u8>,
    pub extensions: Seq<ExtensionView>,
}

/// One extension: the contents of its object identifier, whether it is
/// marked critical, and the contents of its value.
#[derive(Clone, Debug, PartialEq, Eq)]
pub struct Extension {
    pub id: Vec<u8>,
    pub critical: bool,
    pub value: Vec<u8>,
}

/// The fields of a certificate.
#[derive(Clone, Debug, PartialEq, Eq)]
pub struct Certificate {
    /// The encoded body, header included: what the issuer signed.
    pub tbs: Vec<u8>,
    /// The contents of the serial number.
    pub serial: Vec<u8>,
    /// The contents of the signature algorithm's object identifier.
    pub signature_algorithm: Vec<u8>,
    /// The signature.
    pub signature: Vec<u8>,
    /// The issuer's name, encoded, header included.
    pub issuer: Vec<u8>,
    /// The subject's name, encoded, header included.
    pub subject: Vec<u8>,
    /// Start of the validity period, in seconds since 1970.
    pub not_before: u64,
    /// End of the validity period, in seconds since 1970.
    pub not_after: u64,
    /// The contents of the key algorithm's object identifier.
    pub key_algorithm: Vec<u8>,
    /// What follows that identifier in the key's algorithm, encoded.
    pub key_parameters: Vec<u8>,
    /// The subject's public key.
    pub public_key: Vec<u8>,
    /// The extensions, in their order.
    pub extensions: Vec<Extension>,
}

impl View for Extension {
    type V = ExtensionView;

    open spec fn view(&self) -> ExtensionView {
        ExtensionView { id: self.id@, critical: self.critical, value: self.value@ }
    }
}

impl View for Certificate {
    type V = CertificateView;

    open spec fn view(&self) -> CertificateView {
        CertificateView {
            tbs: self.tbs@,
            serial: self.serial@,
            signature_algorithm: self.signature_algorithm@,
            signature: self.signature@,
            issuer: self.issuer@,
            subject: self.subject@,
            not_before: self.not_before,
            not_after: self.not_after,
            key_algorithm: self.key_algorithm@,
            key_parameters: self.key_parameters@,
            public_key: self.public_key@,
            extensions: self.extensions@.map_values(|e: Extension| e@),
        }
    }
}

/// The contents of an element.
pub open spec fn contents(s: Seq<u8>, e: Element) -> Seq<u8> {
    s.subrange(e.start as int, e.end as int)
}

/// The three outer parts of a certificate.
#[derive(Clone, Copy, Debug, PartialEq, Eq, Structural)]
pub struct Frame {
    pub outer: Element,
    pub tbs: Element,
    pub algorithm: Element,
    pub signature: Element,
}

/// The outer parts: one sequence over the whole input, holding the body, the
/// signature algorithm, and a bit string of whole octets, and nothing more.
#[verifier::opaque]
pub open spec fn frame_of(s: Seq<u8>) -> Option<Frame> {
    let outer = element_within(s, 0, TAG_SEQUENCE, s.len() as int);
    let tbs = element_within(s, outer->0.start as int, TAG_SEQUENCE, s.len() as int);
    let algorithm = element_within(s, tbs->0.end as int, TAG_SEQUENCE, s.len() as int);
    let signature = element_within(s, algorithm->0.end as int, TAG_BIT_STRING, s.len() as int);
    if outer is Some && outer->0.end == s.len() && tbs is Some && algorithm is Some && signature is Some
        && signature->0.end == s.len() && signature->0.start < signature->0.end
        && s[signature->0.start as int] == 0 {
        Some(
            Frame {
                outer: outer->0,
                tbs: tbs->0,
                algorithm: algorithm->0,
                signature: signature->0,
            },
        )
    } else {
        None
    }
}

/// The fields of the body up to the subject's key.
#[derive(Clone, Copy, Debug, PartialEq, Eq, Structural)]
pub struct Body {
    pub version: Element,
    pub serial: Element,
    pub algorithm: Element,
    pub issuer: Element,
    pub validity: Element,
    pub subject: Element,
    pub key: Element,
}

/// The body's fields in their order: version 3, serial number, signature
/// algorithm, issuer, validity, subject, subject's key.
#[verifier::opaque]
pub open spec fn body_of(s: Seq<u8>, tbs: Element) -> Option<Body> {
    let limit = tbs.end as int;
    let version = element_within(s, tbs.start as int, TAG_VERSION, limit);
    let serial = element_within(s, version->0.end as int, TAG_INTEGER, limit);
    let algorithm = element_within(s, serial->0.end as int, TAG_SEQUENCE, limit);
    let issuer = element_within(s, algorithm->0.end as int, TAG_SEQUENCE, limit);
    let validity = element_within(s, issuer->0.end as int, TAG_SEQUENCE, limit);
    let subject = element_within(s, validity->0.end as int, TAG_SEQUENCE, limit);
    let key = element_within(s, subject->0.end as int, TAG_SEQUENCE, limit);
    if version is Some && contents(s, version->0) == seq![0x02u8, 0x01u8, 0x02u8] && serial is Some
        && algorithm is Some && issuer is Some && validity is Some && subject is Some && key is Some {
        Some(
            Body {
                version: version->0,
                serial: serial->0,
                algorithm: algorithm->0,
                issuer: issuer->0,
                validity: validity->0,
                subject: subject->0,
                key: key->0,
            },
        )
    } else {
        None
    }
}

/// A validity period, in seconds since 1970.
#[derive(Clone, Copy, Debug, PartialEq, Eq, Structural)]
pub struct Validity {
    pub not_before: u64,
    pub not_after: u64,
}

/// The two times of a validity period.
#[verifier::opaque]
pub open spec fn validity_of(s: Seq<u8>, validity: Element) -> Option<Validity> {
    let first = element_at(s, validity.start as int);
    let second = element_at(s, first->0.end as int);
    let not_before = seconds_of(first->0.tag, contents(s, first->0));
    let not_after = seconds_of(second->0.tag, contents(s, second->0));
    if first is Some && first->0.end <= validity.end && second is Some && second->0.end
        == validity.end && not_before is Some && not_after is Some {
        Some(Validity { not_before: not_before->0, not_after: not_after->0 })
    } else {
        None
    }
}

/// The parts of a subject's key: the algorithm's identifier, what follows it
/// in the algorithm, and the key bits.
#[derive(Clone, Copy, Debug, PartialEq, Eq, Structural)]
pub struct KeyParts {
    pub algorithm: Element,
    pub id: Element,
    pub bits: Element,
}

/// The subject's key: an algorithm that starts with an object identifier, and
/// a bit string of whole octets.
#[verifier::opaque]
pub open spec fn key_of(s: Seq<u8>, key: Element) -> Option<KeyParts> {
    let limit = key.end as int;
    let algorithm = element_within(s, key.start as int, TAG_SEQUENCE, limit);
    let id = element_within(s, algorithm->0.start as int, TAG_OID, algorithm->0.end as int);
    let bits = element_within(s, algorithm->0.end as int, TAG_BIT_STRING, limit);
    if algorithm is Some && id is Some && bits is Some && bits->0.end == key.end && bits->0.start
        < bits->0.end && s[bits->0.start as int] == 0 {
        Some(KeyParts { algorithm: algorithm->0, id: id->0, bits: bits->0 })
    } else {
        None
    }
}

/// The signature algorithm's object identifier, where the body names the
/// same algorithm as the outer part, octet for octet.
#[verifier::opaque]
pub open spec fn algorithm_of(s: Seq<u8>, frame: Frame, body: Body) -> Option<Element> {
    let id = element_within(
        s,
        frame.algorithm.start as int,
        TAG_OID,
        frame.algorithm.end as int,
    );
    if id is Some && contents(s, frame.algorithm) == contents(s, body.algorithm) {
        id
    } else {
        None
    }
}

/// One extension: an object identifier, an optional critical mark, and an
/// octet string that ends the extension.
#[verifier::opaque]
pub open spec fn extension_of(s: Seq<u8>, item: Element) -> Option<ExtensionView> {
    let limit = item.end as int;
    let id = element_within(s, item.start as int, TAG_OID, limit);
    let mark = element_within(s, id->0.end as int, TAG_BOOLEAN, limit);
    let marked = mark is Some;
    let value = element_within(
        s,
        if marked {
            mark->0.end as int
        } else {
            id->0.end as int
        },
        TAG_OCTET_STRING,
        limit,
    );
    if id is Some && value is Some && value->0.end == item.end && (marked ==> mark->0.end
        - mark->0.start == 1 && (s[mark->0.start as int] == 0 || s[mark->0.start as int] == 0xff)) {
        Some(
            ExtensionView {
                id: contents(s, id->0),
                critical: marked && s[mark->0.start as int] == 0xff,
                value: contents(s, value->0),
            },
        )
    } else {
        None
    }
}

/// The extensions that fill the input from `at` to `end`.
pub open spec fn extensions_from(s: Seq<u8>, at: int, end: int) -> Option<Seq<ExtensionView>>
    decreases end - at,
{
    if at >= end {
        if at == end {
            Some(Seq::empty())
        } else {
            None
        }
    } else {
        let item = element_within(s, at, TAG_SEQUENCE, end);
        if item is Some && item->0.end > at {
            let first = extension_of(s, item->0);
            let rest = extensions_from(s, item->0.end as int, end);
            if first is Some && rest is Some {
                Some(seq![first->0] + rest->0)
            } else {
                None
            }
        } else {
            None
        }
    }
}

/// The extensions of a body whose key ends at `after_key`: none where the
/// body ends there, else one explicitly tagged list that ends the body.
#[verifier::opaque]
pub open spec fn extensions_of(s: Seq<u8>, after_key: int, tbs_end: int) -> Option<
    Seq<ExtensionView>,
> {
    if after_key == tbs_end {
        Some(Seq::empty())
    } else {
        let wrapper = element_within(s, after_key, TAG_EXTENSIONS, tbs_end);
        let list = element_within(s, wrapper->0.start as int, TAG_SEQUENCE, tbs_end);
        if wrapper is Some && wrapper->0.end == tbs_end && list is Some && list->0.end == tbs_end {
            extensions_from(s, list->0.start as int, tbs_end)
        } else {
            None
        }
    }
}

/// What an encoding is read as: the certificate it holds, or the first part
/// that is not as a certificate has it.
pub open spec fn certificate_of(s: Seq<u8>) -> Result<CertificateView, CertificateError> {
    let frame = frame_of(s);
    let body = body_of(s, frame->0.tbs);
    let validity = validity_of(s, body->0.validity);
    let key = key_of(s, body->0.key);
    let algorithm = algorithm_of(s, frame->0, body->0);
    let extensions = extensions_of(s, body->0.key.end as int, frame->0.tbs.end as int);
    if frame is None {
        Err(CertificateError::Frame)
    } else if body is None {
        Err(CertificateError::Body)
    } else if validity is None {
        Err(CertificateError::Validity)
    } else if key is None {
        Err(CertificateError::PublicKey)
    } else if algorithm is None {
        Err(CertificateError::Algorithm)
    } else if extensions is None {
        Err(CertificateError::Extensions)
    } else {
        Ok(
            CertificateView {
                tbs: s.subrange(frame->0.outer.start as int, frame->0.tbs.end as int),
                serial: contents(s, body->0.serial),
                signature_algorithm: contents(s, algorithm->0),
                signature: s.subrange(frame->0.signature.start + 1, frame->0.signature.end as int),
                issuer: s.subrange(body->0.algorithm.end as int, body->0.issuer.end as int),
                subject: s.subrange(body->0.validity.end as int, body->0.subject.end as int),
                not_before: validity->0.not_before,
                not_after: validity->0.not_after,
                key_algorithm: contents(s, key->0.id),
                key_parameters: s.subrange(key->0.id.end as int, key->0.algorithm.end as int),
                public_key: s.subrange(key->0.bits.start + 1, key->0.bits.end as int),
                extensions: extensions->0,
            },
        )
    }
}


fn read_frame(bytes: &[u8]) -> (r: Option<Frame>)
    ensures
        r == frame_of(bytes@),
        r matches Some(f) ==> f.outer.start <= f.tbs.start <= f.tbs.end <= f.algorithm.start
            <= f.algorithm.end < f.signature.start < f.signature.end == bytes@.len(),
{
    reveal(frame_of);
    let n = bytes.len();
    let outer = match read_within(bytes, 0, TAG_SEQUENCE, n) {
        Some(e) => e,
        None => { return None; },
    };
    if outer.end != n {
        return None;
    }
    let tbs = match read_within(bytes, outer.start, TAG_SEQUENCE, n) {
        Some(e) => e,
        None => { return None; },
    };
    let algorithm = match read_within(bytes, tbs.end, TAG_SEQUENCE, n) {
        Some(e) => e,
        None => { return None; },
    };
    let signature = match read_within(bytes, algorithm.end, TAG_BIT_STRING, n) {
        Some(e) => e,
        None => { return None; },
    };
    if signature.end != n || signature.start >= signature.end || bytes[signature.start] != 0 {
        return None;
    }
    Some(Frame { outer, tbs, algorithm, signature })
}

fn read_body(bytes: &[u8], tbs: Element) -> (r: Option<Body>)
    requires
        tbs.start <= tbs.end <= bytes@.len(),
    ensures
        r == body_of(bytes@, tbs),
        r matches Some(b) ==> tbs.start < b.version.end < b.serial.start <= b.serial.end
            < b.algorithm.start <= b.algorithm.end < b.issuer.start <= b.issuer.end
            < b.validity.start <= b.validity.end < b.subject.start <= b.subject.end < b.key.start
            <= b.key.end <= tbs.end,
{
    reveal(body_of);
    let limit = tbs.end;
    let version = match read_within(bytes, tbs.start, TAG_VERSION, limit) {
        Some(e) => e,
        None => { return None; },
    };
    let three = version.end - version.start == 3 && bytes[version.start] == 0x02 && bytes[
        version.start + 1] == 0x01 && bytes[version.start + 2] == 0x02;
    proof {
        let c = contents(bytes@, version);
        let want = seq![0x02u8, 0x01u8, 0x02u8];
        if three {
            assert(c =~= want);
        } else if c == want {
            assert(c.len() == 3);
            assert(c[0] == want[0] && c[1] == want[1] && c[2] == want[2]);
        }
    }
    if !three {
        return None;
    }
    let serial = match read_within(bytes, version.end, TAG_INTEGER, limit) {
        Some(e) => e,
        None => { return None; },
    };
    let algorithm = match read_within(bytes, serial.end, TAG_SEQUENCE, limit) {
        Some(e) => e,
        None => { return None; },
    };
    let issuer = match read_within(bytes, algorithm.end, TAG_SEQUENCE, limit) {
        Some(e) => e,
        None => { return None; },
    };
    let validity = match read_within(bytes, issuer.end, TAG_SEQUENCE, limit) {
        Some(e) => e,
        None => { return None; },
    };
    let subject = match read_within(bytes, validity.end, TAG_SEQUENCE, limit) {
        Some(e) => e,
        None => { return None; },
    };
    let key = match read_within(bytes, subject.end, TAG_SEQUENCE, limit) {
        Some(e) => e,
        None => { return None; },
    };
    Some(Body { version, serial, algorithm, issuer, validity, subject, key })
}

fn read_validity(bytes: &[u8], validity: Element) -> (r: Option<Validity>)
    requires
        validity.start <= validity.end <= bytes@.len(),
    ensures
        r == validity_of(bytes@, validity),
{
    reveal(validity_of);
    let first = match read_element(bytes, validity.start) {
        Some(e) => e,
        None => { return None; },
    };
    if first.end > validity.end {
        return None;
    }
    let second = match read_element(bytes, first.end) {
        Some(e) => e,
        None => { return None; },
    };
    if second.end != validity.end {
        return None;
    }
    let not_before = match parse_seconds(
        first.tag,
        vstd::slice::slice_subrange(bytes, first.start, first.end),
    ) {
        Some(t) => t,
        None => { return None; },
    };
    let not_after = match parse_seconds(
        second.tag,
        vstd::slice::slice_subrange(bytes, second.start, second.end),
    ) {
        Some(t) => t,
        None => { return None; },
    };
    Some(Validity { not_before, not_after })
}

fn read_key(bytes: &[u8], key: Element) -> (r: Option<KeyParts>)
    requires
        key.start <= key.end <= bytes@.len(),
    ensures
        r == key_of(bytes@, key),
        r matches Some(k) ==> k.id.start <= k.id.end <= k.algorithm.end < k.bits.start
            < k.bits.end <= bytes@.len(),
{
    reveal(key_of);
    let limit = key.end;
    let algorithm = match read_within(bytes, key.start, TAG_SEQUENCE, limit) {
        Some(e) => e,
        None => { return None; },
    };
    let id = match read_within(bytes, algorithm.start, TAG_OID, algorithm.end) {
        Some(e) => e,
        None => { return None; },
    };
    let bits = match read_within(bytes, algorithm.end, TAG_BIT_STRING, limit) {
        Some(e) => e,
        None => { return None; },
    };
    if bits.end != key.end || bits.start >= bits.end || bytes[bits.start] != 0 {
        return None;
    }
    Some(KeyParts { algorithm, id, bits })
}

fn read_algorithm(bytes: &[u8], frame: Frame, body: Body) -> (r: Option<Element>)
    requires
        frame.algorithm.start <= frame.algorithm.end <= bytes@.len(),
        body.algorithm.start <= body.algorithm.end <= bytes@.len(),
    ensures
        r == algorithm_of(bytes@, frame, body),
        r matches Some(id) ==> id.start <= id.end <= bytes@.len(),
{
    reveal(algorithm_of);
    let id = match read_within(bytes, frame.algorithm.start, TAG_OID, frame.algorithm.end) {
        Some(e) => e,
        None => { return None; },
    };
    let outer = vstd::slice::slice_subrange(bytes, frame.algorithm.start, frame.algorithm.end);
    let inner = vstd::slice::slice_subrange(bytes, body.algorithm.start, body.algorithm.end);
    if !crate::der::same_bytes(outer, inner) {
        return None;
    }
    Some(id)
}

fn read_extension(bytes: &[u8], item: Element) -> (r: Option<Extension>)
    requires
        item.start <= item.end <= bytes@.len(),
    ensures
        match r {
            Some(e) => extension_of(bytes@, item) == Some(e@),
            None => extension_of(bytes@, item) is None,
        },
{
    reveal(extension_of);
    let limit = item.end;
    let id = match read_within(bytes, item.start, TAG_OID, limit) {
        Some(e) => e,
        None => { return None; },
    };
    let mark = read_within(bytes, id.end, TAG_BOOLEAN, limit);
    let mut critical = false;
    let mut at = id.end;
    match mark {
        Some(m) => {
            if m.end - m.start != 1 {
                return None;
            }
            let b = bytes[m.start];
            if b != 0 && b != 0xff {
                return None;
            }
            critical = b == 0xff;
            at = m.end;
        },
        None => {},
    }
    let value = match read_within(bytes, at, TAG_OCTET_STRING, limit) {
        Some(e) => e,
        None => { return None; },
    };
    if value.end != item.end {
        return None;
    }
    Some(
        Extension {
            id: copy_range(bytes, id.start, id.end),
            critical,
            value: copy_range(bytes, value.start, value.end),
        },
    )
}

fn read_extensions_from(bytes: &[u8], start: usize, end: usize) -> (r: Option<Vec<Extension>>)
    requires
        start <= end <= bytes@.len(),
    ensures
        match r {
            Some(v) => extensions_from(bytes@, start as int, end as int) == Some(
                v@.map_values(|e: Extension| e@),
            ),
            None => extensions_from(bytes@, start as int, end as int) is None,
        },
{
    let mut out: Vec<Extension> = Vec::new();
    let mut at: usize = start;
    while at < end
        invariant
            start <= at <= end <= bytes@.len(),
            extensions_from(bytes@, start as int, end as int) == match extensions_from(
                bytes@,
                at as int,
                end as int,
            ) {
                Some(rest) => Some(out@.map_values(|e: Extension| e@) + rest),
                None => None,
            },
        decreases end - at,
    {
        let item = match read_within(bytes, at, TAG_SEQUENCE, end) {
            Some(e) => e,
            None => { return None; },
        };
        let extension = match read_extension(bytes, item) {
            Some(e) => e,
            None => { return None; },
        };
        let ghost before = out@.map_values(|e: Extension| e@);
        let ghost view = extension@;
        out.push(extension);
        proof {
            let after = out@.map_values(|e: Extension| e@);
            assert(after =~= before + seq![view]);
            let rest = extensions_from(bytes@, item.end as int, end as int);
            if rest is Some {
                assert(before + (seq![view] + rest->0) =~= after + rest->0);
            }
        }
        at = item.end;
    }
    proof {
        let done = out@.map_values(|e: Extension| e@);
        assert(done + Seq::<ExtensionView>::empty() =~= done);
    }
    Some(out)
}

fn read_extensions(bytes: &[u8], after_key: usize, tbs_end: usize) -> (r: Option<Vec<Extension>>)
    requires
        after_key <= tbs_end <= bytes@.len(),
    ensures
        match r {
            Some(v) => extensions_of(bytes@, after_key as int, tbs_end as int) == Some(
                v@.map_values(|e: Extension| e@),
            ),
            None => extensions_of(bytes@, after_key as int, tbs_end as int) is None,
        },
{
    reveal(extensions_of);
    if after_key == tbs_end {
        let out: Vec<Extension> = Vec::new();
        assert(out@.map_values(|e: Extension| e@) =~= Seq::<ExtensionView>::empty());
        return Some(out);
    }
    let wrapper = match read_within(bytes, after_key, TAG_EXTENSIONS, tbs_end) {
        Some(e) => e,
        None => { return None; },
    };
    if wrapper.end != tbs_end {
        return None;
    }
    let list = match read_within(bytes, wrapper.start, TAG_SEQUENCE, tbs_end) {
        Some(e) => e,
        None => { return None; },
    };
    if list.end != tbs_end {
        return None;
    }
    read_extensions_from(bytes, list.start, tbs_end)
}

impl Certificate {
    /// Reads a certificate from its DER encoding. The encoding is read as a
    /// certificate exactly when every part stands where a version 3
    /// certificate has it; the error names the first part that does not.
    pub fn parse(bytes: &[u8]) -> (r: Result<Certificate, CertificateError>)
        ensures
            match r {
                Ok(c) => certificate_of(bytes@) == Ok::<CertificateView, CertificateError>(c@),
                Err(e) => certificate_of(bytes@) == Err::<CertificateView, CertificateError>(e),
            },
    {
        let frame = match read_frame(bytes) {
            Some(f) => f,
            None => { return Err(CertificateError::Frame); },
        };
        let body = match read_body(bytes, frame.tbs) {
            Some(b) => b,
            None => { return Err(CertificateError::Body); },
        };
        let validity = match read_validity(bytes, body.validity) {
            Some(v) => v,
            None => { return Err(CertificateError::Validity); },
        };
        let key = match read_key(bytes, body.key) {
            Some(k) => k,
            None => { return Err(CertificateError::PublicKey); },
        };
        let algorithm = match read_algorithm(bytes, frame, body) {
            Some(a) => a,
            None => { return Err(CertificateError::Algorithm); },
        };
        let extensions = match read_extensions(bytes, body.key.end, frame.tbs.end) {
            Some(e) => e,
            None => { return Err(CertificateError::Extensions); },
        };
        Ok(
            Certificate {
                tbs: copy_range(bytes, frame.outer.start, frame.tbs.end),
                serial: copy_range(bytes, body.serial.start, body.serial.end),
                signature_algorithm: copy_range(bytes, algorithm.start, algorithm.end),
                signature: copy_range(bytes, frame.signature.start + 1, frame.signature.end),
                issuer: copy_range(bytes, body.algorithm.end, body.issuer.end),
                subject: copy_range(bytes, body.validity.end, body.subject.end),
                not_before: validity.not_before,
                not_after: validity.not_after,
                key_algorithm: copy_range(bytes, key.id.start, key.id.end),
                key_parameters: copy_range(bytes, key.id.end, key.algorithm.end),
                public_key: copy_range(bytes, key.bits.start + 1, key.bits.end),
                extensions,
            },
        )
    }
}

} // verus!
