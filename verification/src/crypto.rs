//! The two signature schemes that the chain and the report use. Their
//! verdicts come from the `rsa` and `p384` crates and are taken on trust.
use rsa::signature::Verifier;
use vstd::prelude::*;

verus! {

/// Whether RSASSA-PSS verification with SHA-384, MGF1 over SHA-384 and a salt
/// of 48 octets accepts `signature` for `message` under the public key with
/// this big-endian modulus and exponent.
pub uninterp spec fn rsa_pss_sha384_accepts(
    modulus: Seq<u8>,
    exponent: Seq<u8>,
    message: Seq<u8>,
    signature: Seq<u8>,
) -> bool;

/// Whether ECDSA verification on P-384 with SHA-384 accepts `signature`, the
/// big-endian `r` followed by the big-endian `s`, for `message` under the
/// public key with this SEC1 encoding.
pub uninterp spec fn ecdsa_p384_sha384_accepts(
    point: Seq<u8>,
    message: Seq<u8>,
    signature: Seq<u8>,
) -> bool;

/// Calls `verify` of `rsa::pss::VerifyingKey<Sha384>` on a key made by
/// `rsa::RsaPublicKey::new`. Trusted: that the answer depends on the four
/// byte strings alone. A key or signature that the crate refuses to build
/// counts as not accepted.
#[verifier::external_body]
pub(crate) fn rsa_pss_sha384_verify(
    modulus: &[u8],
    exponent: &[u8],
    message: &[u8],
    signature: &[u8],
) -> (accepted: bool)
    ensures
        accepted == rsa_pss_sha384_accepts(modulus@, exponent@, message@, signature@),
{
    let n = rsa::BigUint::from_bytes_be(modulus);
    let e = rsa::BigUint::from_bytes_be(exponent);
    match (rsa::RsaPublicKey::new(n, e), rsa::pss::Signature::try_from(signature)) {
        (Ok(key), Ok(sig)) => rsa::pss::VerifyingKey::<rsa::sha2::Sha384>::new(key).verify(
            message,
            &sig,
        ).is_ok(),
        _ => false,
    }
}

/// Calls `verify` of `p384::ecdsa::VerifyingKey` on a key made by
/// `from_sec1_bytes` and a signature made by `Signature::from_slice`.
/// Trusted: that the answer depends on the three byte strings alone. A key
/// or signature that the crate refuses to build counts as not accepted.
#[verifier::external_body]
pub(crate) fn ecdsa_p384_sha384_verify(point: &[u8], message: &[u8], signature: &[u8]) -> (accepted:
    bool)
    ensures
        accepted == ecdsa_p384_sha384_accepts(point@, message@, signature@),
{
    match (
        p384::ecdsa::VerifyingKey::from_sec1_bytes(point),
        p384::ecdsa::Signature::from_slice(signature),
    ) {
        (Ok(key), Ok(sig)) => key.verify(message, &sig).is_ok(),
        _ => false,
    }
}

} // verus!
