//! The certificate chain from the pinned root key (ARK) over the signing key
//! (ASK) to the chip's endorsement key (VCEK).
use crate::certificate::{certificate_of, Certificate, CertificateView};
use crate::crypto::{rsa_pss_sha384_accepts, rsa_pss_sha384_verify};
use crate::der::same_bytes;
use crate::generation::ProcessorGeneration;
use crate::keys::{rsa_key, rsa_key_of, OID_RSASSA_PSS};
use crate::names::{common_name, common_name_of};
use crate::root_certs::{ark_for, pinned_ark};
use vstd::prelude::*;

verus! {

/// The common name `ARK-Milan`.
pub const CN_ARK_MILAN: [u8; 9] = [0x41, 0x52, 0x4b, 0x2d, 0x4d, 0x69, 0x6c, 0x61, 0x6e];

/// The common name `ARK-Genoa`.
pub const CN_ARK_GENOA: [u8; 9] = [0x41, 0x52, 0x4b, 0x2d, 0x47, 0x65, 0x6e, 0x6f, 0x61];

/// The common name `ARK-Turin`.
pub const CN_ARK_TURIN: [u8; 9] = [0x41, 0x52, 0x4b, 0x2d, 0x54, 0x75, 0x72, 0x69, 0x6e];

/// The common name `SEV-Milan`.
pub const CN_SEV_MILAN: [u8; 9] = [0x53, 0x45, 0x56, 0x2d, 0x4d, 0x69, 0x6c, 0x61, 0x6e];

/// The common name `SEV-Genoa`.
pub const CN_SEV_GENOA: [u8; 9] = [0x53, 0x45, 0x56, 0x2d, 0x47, 0x65, 0x6e, 0x6f, 0x61];

/// The common name `SEV-Turin`.
pub const CN_SEV_TURIN: [u8; 9] = [0x53, 0x45, 0x56, 0x2d, 0x54, 0x75, 0x72, 0x69, 0x6e];

/// The common name `SEV-VCEK`.
pub const CN_SEV_VCEK: [u8; 8] = [0x53, 0x45, 0x56, 0x2d, 0x56, 0x43, 0x45, 0x4b];

/// Whether validity periods are held against a time.
#[derive(Clone, Copy, Debug, PartialEq, Eq, Structural)]
pub enum ExpiryPolicy {
    /// Every certificate of the chain must be valid at this time, given in
    /// seconds since 1970.
    EnforceAt(u64),
    /// Validity periods are not looked at.
    Ignore,
}

/// A certificate of the chain, named by its place.
#[derive(Clone, Copy, Debug, PartialEq, Eq, Structural)]
pub enum ChainLink {
    /// The root key certificate.
    Root,
    /// The signing key certificate, issued by the root key.
    Intermediate,
    /// The chip's endorsement key certificate, issued by the signing key.
    Leaf,
}

/// Why a chain was not accepted.
#[derive(Clone, Copy, Debug, PartialEq, Eq, Structural)]
pub enum ChainError {
    /// This certificate could not be read, or its issuer's key did not sign
    /// it.
    BadLink(ChainLink),
    /// A certificate is not valid at the time that the policy names.
    Expired,
    /// The root is not the one pinned for the generation, or the names in
    /// the chain are not those of the generation.
    GenerationMismatch,
}

/// The common name of a generation's root key certificate.
pub open spec fn root_common_name(generation: ProcessorGeneration) -> Seq<u8> {
    match generation {
        ProcessorGeneration::Milan => CN_ARK_MILAN@,
        ProcessorGeneration::Genoa => CN_ARK_GENOA@,
        ProcessorGeneration::Turin => CN_ARK_TURIN@,
    }
}

/// The common name of a generation's signing key certificate.
pub open spec fn signing_common_name(generation: ProcessorGeneration) -> Seq<u8> {
    match generation {
        ProcessorGeneration::Milan => CN_SEV_MILAN@,
        ProcessorGeneration::Genoa => CN_SEV_GENOA@,
        ProcessorGeneration::Turin => CN_SEV_TURIN@,
    }
}

/// Whether `signer`'s key signed `signee`: the signee names RSASSA-PSS as
/// its signature algorithm, the signer carries an RSA key, and the signature
/// over the signee's body verifies under that key.
pub open spec fn link_holds(signer: CertificateView, signee: CertificateView) -> bool {
    &&& signee.signature_algorithm == OID_RSASSA_PSS@
    &&& rsa_key_of(signer) is Some
    &&& rsa_pss_sha384_accepts(
        rsa_key_of(signer)->0.modulus,
        rsa_key_of(signer)->0.exponent,
        signee.tbs,
        signee.signature,
    )
}

/// Whether a certificate is valid under a policy.
pub open spec fn within_validity(policy: ExpiryPolicy, c: CertificateView) -> bool {
    match policy {
        ExpiryPolicy::EnforceAt(now) => c.not_before <= now <= c.not_after,
        ExpiryPolicy::Ignore => true,
    }
}

/// Whether the names in a chain are those of a generation: the root issued
/// itself, each certificate names its issuer's subject as its issuer, and
/// the three common names are `ARK-`, `SEV-` with the generation's name, and
/// `SEV-VCEK`.
pub open spec fn names_hold(
    generation: ProcessorGeneration,
    ark: CertificateView,
    ask: CertificateView,
    vcek: CertificateView,
) -> bool {
    &&& ark.issuer == ark.subject
    &&& ask.issuer == ark.subject
    &&& vcek.issuer == ask.subject
    &&& common_name_of(ark.subject) == Some(root_common_name(generation))
    &&& common_name_of(ask.subject) == Some(signing_common_name(generation))
    &&& common_name_of(vcek.subject) == Some(CN_SEV_VCEK@)
}

/// What comes after the signatures: validity periods, then names.
pub open spec fn periods_and_names(
    generation: ProcessorGeneration,
    ark: CertificateView,
    ask: CertificateView,
    vcek: CertificateView,
    policy: ExpiryPolicy,
) -> Result<(), ChainError> {
    if !(within_validity(policy, ark) && within_validity(policy, ask) && within_validity(
        policy,
        vcek,
    )) {
        Err(ChainError::Expired)
    } else if !names_hold(generation, ark, ask, vcek) {
        Err(ChainError::GenerationMismatch)
    } else {
        Ok(())
    }
}

/// The verdict on a chain. The first failing check decides: the root must be
/// the one pinned for the generation; each certificate must be read and, but
/// for the root, be signed by the one above it; validity periods must hold
/// under the policy; the names must be the generation's.
pub open spec fn chain_verdict(
    generation: ProcessorGeneration,
    ark: Seq<u8>,
    ask: Seq<u8>,
    vcek: Seq<u8>,
    policy: ExpiryPolicy,
) -> Result<(), ChainError> {
    let root = certificate_of(ark);
    let intermediate = certificate_of(ask);
    let leaf = certificate_of(vcek);
    if ark != pinned_ark(generation) {
        Err(ChainError::GenerationMismatch)
    } else if root is Err {
        Err(ChainError::BadLink(ChainLink::Root))
    } else if intermediate is Err || !link_holds(root->Ok_0, intermediate->Ok_0) {
        Err(ChainError::BadLink(ChainLink::Intermediate))
    } else if leaf is Err || !link_holds(intermediate->Ok_0, leaf->Ok_0) {
        Err(ChainError::BadLink(ChainLink::Leaf))
    } else {
        periods_and_names(generation, root->Ok_0, intermediate->Ok_0, leaf->Ok_0, policy)
    }
}

/// Checks one link of the chain.
pub fn verify_link(signer: &Certificate, signee: &Certificate) -> (held: bool)
    ensures
        held == link_holds(signer@, signee@),
{
    if !same_bytes(signee.signature_algorithm.as_slice(), OID_RSASSA_PSS.as_slice()) {
        return false;
    }
    match rsa_key(signer) {
        Some(key) => rsa_pss_sha384_verify(
            key.modulus.as_slice(),
            key.exponent.as_slice(),
            signee.tbs.as_slice(),
            signee.signature.as_slice(),
        ),
        None => false,
    }
}

/// Holds one certificate's validity period against the policy.
pub fn check_validity(policy: ExpiryPolicy, certificate: &Certificate) -> (held: bool)
    ensures
        held == within_validity(policy, certificate@),
{
    match policy {
        ExpiryPolicy::EnforceAt(now) => certificate.not_before <= now && now
            <= certificate.not_after,
        ExpiryPolicy::Ignore => true,
    }
}

fn has_common_name(name: &[u8], expected: &[u8]) -> (held: bool)
    ensures
        held == (common_name_of(name@) == Some(expected@)),
{
    match common_name(name) {
        Some(found) => same_bytes(found.as_slice(), expected),
        None => false,
    }
}

/// Holds the names in a chain against a generation.
pub fn check_names(
    generation: ProcessorGeneration,
    ark: &Certificate,
    ask: &Certificate,
    vcek: &Certificate,
) -> (held: bool)
    ensures
        held == names_hold(generation, ark@, ask@, vcek@),
{
    let root_name = match generation {
        ProcessorGeneration::Milan => CN_ARK_MILAN.as_slice(),
        ProcessorGeneration::Genoa => CN_ARK_GENOA.as_slice(),
        ProcessorGeneration::Turin => CN_ARK_TURIN.as_slice(),
    };
    let signing_name = match generation {
        ProcessorGeneration::Milan => CN_SEV_MILAN.as_slice(),
        ProcessorGeneration::Genoa => CN_SEV_GENOA.as_slice(),
        ProcessorGeneration::Turin => CN_SEV_TURIN.as_slice(),
    };
    same_bytes(ark.issuer.as_slice(), ark.subject.as_slice()) && same_bytes(
        ask.issuer.as_slice(),
        ark.subject.as_slice(),
    ) && same_bytes(vcek.issuer.as_slice(), ask.subject.as_slice()) && has_common_name(
        ark.subject.as_slice(),
        root_name,
    ) && has_common_name(ask.subject.as_slice(), signing_name) && has_common_name(
        vcek.subject.as_slice(),
        CN_SEV_VCEK.as_slice(),
    )
}

/// Holds the validity periods and the names of a chain whose signatures
/// hold: what is left to decide once the signatures are known.
pub fn check_periods_and_names(
    generation: ProcessorGeneration,
    ark: &Certificate,
    ask: &Certificate,
    vcek: &Certificate,
    policy: ExpiryPolicy,
) -> (r: Result<(), ChainError>)
    ensures
        r == periods_and_names(generation, ark@, ask@, vcek@, policy),
{
    if !(check_validity(policy, ark) && check_validity(policy, ask) && check_validity(
        policy,
        vcek,
    )) {
        Err(ChainError::Expired)
    } else if !check_names(generation, ark, ask, vcek) {
        Err(ChainError::GenerationMismatch)
    } else {
        Ok(())
    }
}

/// Verifies the chain from a root key certificate to a chip's endorsement
/// key certificate, all three given in DER, for a generation.
pub fn verify_chain(
    generation: ProcessorGeneration,
    ark: &[u8],
    ask: &[u8],
    vcek: &[u8],
    policy: ExpiryPolicy,
) -> (r: Result<(), ChainError>)
    ensures
        r == chain_verdict(generation, ark@, ask@, vcek@, policy),
{
    if !same_bytes(ark, ark_for(generation)) {
        return Err(ChainError::GenerationMismatch);
    }
    let root = match Certificate::parse(ark) {
        Ok(c) => c,
        Err(_) => { return Err(ChainError::BadLink(ChainLink::Root)); },
    };
    let intermediate = match Certificate::parse(ask) {
        Ok(c) => c,
        Err(_) => { return Err(ChainError::BadLink(ChainLink::Intermediate)); },
    };
    if !verify_link(&root, &intermediate) {
        return Err(ChainError::BadLink(ChainLink::Intermediate));
    }
    let leaf = match Certificate::parse(vcek) {
        Ok(c) => c,
        Err(_) => { return Err(ChainError::BadLink(ChainLink::Leaf)); },
    };
    if !verify_link(&intermediate, &leaf) {
        return Err(ChainError::BadLink(ChainLink::Leaf));
    }
    check_periods_and_names(generation, &root, &intermediate, &leaf, policy)
}

/// With the root of another generation in place of a generation's own, the
/// chain is refused as a mismatch, whatever the other certificates are.
pub proof fn foreign_root_is_refused(
    generation: ProcessorGeneration,
    other: ProcessorGeneration,
    ask: Seq<u8>,
    vcek: Seq<u8>,
    policy: ExpiryPolicy,
)
    requires
        other != generation,
    ensures
        chain_verdict(generation, pinned_ark(other), ask, vcek, policy) == Err::<(), ChainError>(
            ChainError::GenerationMismatch,
        ),
{
    crate::root_certs::pinned_arks_differ(other, generation);
}

} // verus!
