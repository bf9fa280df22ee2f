//! The public keys that certificates of the chain carry: RSA keys in the
//! root and signing certificates, a P-384 point in the chip's certificate.
use crate::certificate::{
    contents, Certificate, CertificateView, TAG_INTEGER, TAG_SEQUENCE,
};
use crate::der::{copy_range, element_within, read_within, same_bytes, Element};
use vstd::prelude::*;

verus! {

/// Contents of the object identifier 1.2.840.113549.1.1.1 (rsaEncryption).
pub const OID_RSA_ENCRYPTION: [u8; 9] = [0x2a, 0x86, 0x48, 0x86, 0xf7, 0x0d, 0x01, 0x01, 0x01];

/// Contents of the object identifier 1.2.840.113549.1.1.10 (RSASSA-PSS).
pub const OID_RSASSA_PSS: [u8; 9] = [0x2a, 0x86, 0x48, 0x86, 0xf7, 0x0d, 0x01, 0x01, 0x0a];

/// Contents of the object identifier 1.2.840.10045.2.1 (id-ecPublicKey).
pub const OID_EC_PUBLIC_KEY: [u8; 7] = [0x2a, 0x86, 0x48, 0xce, 0x3d, 0x02, 0x01];

/// The encoded object identifier 1.3.132.0.34 (secp384r1), header included:
/// the parameters of a P-384 key.
pub const SECP384R1_PARAMETERS: [u8; 7] = [0x06, 0x05, 0x2b, 0x81, 0x04, 0x00, 0x22];

/// An RSA public key as contracts see it.
pub struct RsaKeyView {
    pub modulus: Seq<u8>,
    pub exponent: Seq<u8>,
}

/// An RSA public key: modulus and exponent, each big-endian as the
/// certificate has it.
#[derive(Clone, Debug, PartialEq, Eq)]
pub struct RsaKey {
    pub modulus: Vec<u8>,
    pub exponent: Vec<u8>,
}

impl View for RsaKey {
    type V = RsaKeyView;

    open spec fn view(&self) -> RsaKeyView {
        RsaKeyView { modulus: self.modulus@, exponent: self.exponent@ }
    }
}

/// Whether an integer element holds a number that is not negative.
pub open spec fn is_unsigned(s: Seq<u8>, e: Element) -> bool {
    e.start < e.end && s[e.start as int] < 0x80
}

/// The RSA key of a certificate whose key algorithm is rsaEncryption: the
/// key bits are one sequence of two integers, modulus and exponent, neither
/// negative, and nothing more.
#[verifier::opaque]
pub open spec fn rsa_key_of(c: CertificateView) -> Option<RsaKeyView> {
    let s = c.public_key;
    let pair = element_within(s, 0, TAG_SEQUENCE, s.len() as int);
    let modulus = element_within(s, pair->0.start as int, TAG_INTEGER, s.len() as int);
    let exponent = element_within(s, modulus->0.end as int, TAG_INTEGER, s.len() as int);
    if c.key_algorithm == OID_RSA_ENCRYPTION@ && pair is Some && pair->0.end == s.len()
        && modulus is Some && exponent is Some && exponent->0.end == s.len() && is_unsigned(
        s,
        modulus->0,
    ) && is_unsigned(s, exponent->0) {
        Some(
            RsaKeyView {
                modulus: contents(s, modulus->0),
                exponent: contents(s, exponent->0),
            },
        )
    } else {
        None
    }
}

/// The P-384 point of a certificate whose key algorithm is id-ecPublicKey on
/// the curve secp384r1: the key bits as they stand.
pub open spec fn ec_point_of(c: CertificateView) -> Option<Seq<u8>> {
    if c.key_algorithm == OID_EC_PUBLIC_KEY@ && c.key_parameters == SECP384R1_PARAMETERS@ {
        Some(c.public_key)
    } else {
        None
    }
}

/// Reads a certificate's RSA key.
pub fn rsa_key(certificate: &Certificate) -> (r: Option<RsaKey>)
    ensures
        match r {
            Some(k) => rsa_key_of(certificate@) == Some(k@),
            None => rsa_key_of(certificate@) is None,
        },
{
    reveal(rsa_key_of);
    if !same_bytes(certificate.key_algorithm.as_slice(), OID_RSA_ENCRYPTION.as_slice()) {
        return None;
    }
    let s = certificate.public_key.as_slice();
    let n = s.len();
    let pair = match read_within(s, 0, TAG_SEQUENCE, n) {
        Some(e) => e,
        None => { return None; },
    };
    if pair.end != n {
        return None;
    }
    let modulus = match read_within(s, pair.start, TAG_INTEGER, n) {
        Some(e) => e,
        None => { return None; },
    };
    let exponent = match read_within(s, modulus.end, TAG_INTEGER, n) {
        Some(e) => e,
        None => { return None; },
    };
    if exponent.end != n || modulus.start >= modulus.end || s[modulus.start] >= 0x80
        || exponent.start >= exponent.end || s[exponent.start] >= 0x80 {
        return None;
    }
    Some(
        RsaKey {
            modulus: copy_range(s, modulus.start, modulus.end),
            exponent: copy_range(s, exponent.start, exponent.end),
        },
    )
}

/// Reads a certificate's P-384 point.
pub fn ec_point(certificate: &Certificate) -> (r: Option<&[u8]>)
    ensures
        match r {
            Some(p) => ec_point_of(certificate@) == Some(p@),
            None => ec_point_of(certificate@) is None,
        },
{
    if same_bytes(certificate.key_algorithm.as_slice(), OID_EC_PUBLIC_KEY.as_slice())
        && same_bytes(certificate.key_parameters.as_slice(), SECP384R1_PARAMETERS.as_slice()) {
        Some(certificate.public_key.as_slice())
    } else {
        None
    }
}

} // verus!
