//! Verification of one report against the chip's endorsement key.
use crate::certificate::{certificate_of, Certificate, CertificateView};
use crate::chain::{chain_verdict, verify_chain, ChainError, ChainLink, ExpiryPolicy};
use crate::crypto::{ecdsa_p384_sha384_accepts, ecdsa_p384_sha384_verify};
use crate::der::{all_zero, is_zero_range, join};
use crate::generation::{generation_of, ProcessorGeneration, UnsupportedProcessorError};
use crate::keys::{ec_point, ec_point_of};
use crate::report::{tcb_components, AttestationReport, Signature, TcbComponents};
use crate::vcek::{endorsed_chip_id, endorsed_tcb, read_endorsed_chip_id, read_endorsed_tcb};
use vstd::prelude::*;

verus! {

/// The value of a report's signature algorithm field for ECDSA on P-384 with
/// SHA-384.
pub const ALGORITHM_ECDSA_P384_SHA384: u32 = 1;

/// Whether the chain is verified along with the report.
#[derive(Clone, Copy, Debug, PartialEq, Eq)]
pub enum ChainVerification<'a> {
    /// Verify the chain from this root key certificate over this signing key
    /// certificate, both in DER, under this policy on validity periods.
    Full { ark: &'a [u8], ask: &'a [u8], expiry: ExpiryPolicy },
    /// Do not verify the chain. For a chip's certificate whose chain the
    /// caller has verified already, and for no other.
    Skip,
}

/// Why certificates could not be had.
#[derive(Clone, Copy, Debug, PartialEq, Eq, Structural)]
pub enum AcquisitionError {
    /// The key distribution service did not deliver them.
    Fetch,
    /// None were supplied.
    Absent,
}

/// Why the chain stage failed.
#[derive(Clone, Copy, Debug, PartialEq, Eq, Structural)]
pub enum ChainFailure {
    /// The certificates could not be had.
    Acquisition(AcquisitionError),
    /// The certificates do not form a valid chain.
    Verification(ChainError),
}

/// Why a report's signature was not accepted.
#[derive(Clone, Copy, Debug, PartialEq, Eq, Structural)]
pub enum SignatureError {
    /// The report names a signature algorithm other than ECDSA on P-384
    /// with SHA-384; the field's value is given.
    UnsupportedAlgorithm(u32),
    /// The chip's certificate carries no P-384 key.
    NoKey,
    /// A component of the signature does not fit the curve's 48 octets.
    Malformed,
    /// The signature does not verify.
    Rejected,
}

/// A firmware component.
#[derive(Clone, Copy, Debug, PartialEq, Eq, Structural)]
pub enum TcbComponent {
    Bootloader,
    Tee,
    Snp,
    Microcode,
}

/// Why a report does not belong to a chip's certificate.
#[derive(Clone, Copy, Debug, PartialEq, Eq, Structural)]
pub enum TcbError {
    /// The certificate does not state all four component versions and the
    /// chip identifier.
    Missing,
    /// This component's version in the report is not the certificate's.
    Component { component: TcbComponent, reported: u8, endorsed: u8 },
    /// The report's chip identifier is not the certificate's.
    ChipId,
}

/// Why a report was not accepted.
#[derive(Clone, Copy, Debug, PartialEq, Eq, Structural)]
pub enum VerificationError {
    UnsupportedProcessor(UnsupportedProcessorError),
    CertificateChainError(ChainFailure),
    SignatureInvalid(SignatureError),
    TcbMismatch(TcbError),
}

/// The 48 octets of a signature component held on 72, where the leading 24
/// are zero.
pub open spec fn scalar_of(component: Seq<u8>) -> Option<Seq<u8>> {
    if component.len() == 72 && all_zero(component, 0, 24) {
        Some(component.subrange(24, 72))
    } else {
        None
    }
}

/// The signature as the curve takes it: `r` then `s`, 48 octets each.
pub open spec fn scalars_of(signature: Signature) -> Option<Seq<u8>> {
    let r = scalar_of(signature.r@);
    let s = scalar_of(signature.s@);
    if r is Some && s is Some {
        Some(r->0 + s->0)
    } else {
        None
    }
}

/// The verdict on a report's signature under a chip's certificate.
pub open spec fn signature_verdict(report: AttestationReport, vcek: CertificateView) -> Result<
    (),
    SignatureError,
> {
    if report.signature_algorithm != ALGORITHM_ECDSA_P384_SHA384 {
        Err(SignatureError::UnsupportedAlgorithm(report.signature_algorithm))
    } else if ec_point_of(vcek) is None {
        Err(SignatureError::NoKey)
    } else if scalars_of(report.signature) is None {
        Err(SignatureError::Malformed)
    } else if !ecdsa_p384_sha384_accepts(
        ec_point_of(vcek)->0,
        report.signed_region(),
        scalars_of(report.signature)->0,
    ) {
        Err(SignatureError::Rejected)
    } else {
        Ok(())
    }
}

/// Whether a certificate's chip identifier is the report's: it is the front
/// of the report's 64 octets, and what follows it there is zero.
pub open spec fn chip_id_matches(endorsed: Seq<u8>, reported: Seq<u8>) -> bool {
    &&& endorsed.len() <= reported.len()
    &&& endorsed == reported.subrange(0, endorsed.len() as int)
    &&& all_zero(reported, endorsed.len() as int, reported.len() as int)
}

/// The first component in which two TCB versions differ.
pub open spec fn first_difference(reported: TcbComponents, endorsed: TcbComponents) -> Option<
    TcbError,
> {
    if reported.bootloader != endorsed.bootloader {
        Some(
            TcbError::Component {
                component: TcbComponent::Bootloader,
                reported: reported.bootloader,
                endorsed: endorsed.bootloader,
            },
        )
    } else if reported.tee != endorsed.tee {
        Some(
            TcbError::Component {
                component: TcbComponent::Tee,
                reported: reported.tee,
                endorsed: endorsed.tee,
            },
        )
    } else if reported.snp != endorsed.snp {
        Some(
            TcbError::Component {
                component: TcbComponent::Snp,
                reported: reported.snp,
                endorsed: endorsed.snp,
            },
        )
    } else if reported.microcode != endorsed.microcode {
        Some(
            TcbError::Component {
                component: TcbComponent::Microcode,
                reported: reported.microcode,
                endorsed: endorsed.microcode,
            },
        )
    } else {
        None
    }
}

/// The verdict on whether a report belongs to a chip's certificate: the
/// report's reported TCB version, read as the generation lays it out, equals
/// the certificate's in all four components, and the chip identifiers match.
pub open spec fn tcb_verdict(
    report: AttestationReport,
    generation: ProcessorGeneration,
    vcek: CertificateView,
) -> Result<(), TcbError> {
    let reported = tcb_components(report.reported_tcb.raw@, generation);
    if endorsed_tcb(vcek) is None || endorsed_chip_id(vcek) is None {
        Err(TcbError::Missing)
    } else if first_difference(reported, endorsed_tcb(vcek)->0) is Some {
        Err(first_difference(reported, endorsed_tcb(vcek)->0)->0)
    } else if !chip_id_matches(endorsed_chip_id(vcek)->0, report.chip_id@) {
        Err(TcbError::ChipId)
    } else {
        Ok(())
    }
}

/// The verdict of the chain stage for a generation.
pub open spec fn chain_stage(
    generation: ProcessorGeneration,
    vcek: Seq<u8>,
    mode: ChainVerification,
) -> Result<(), ChainError> {
    match mode {
        ChainVerification::Full { ark, ask, expiry } => chain_verdict(
            generation,
            ark@,
            ask@,
            vcek,
            expiry,
        ),
        ChainVerification::Skip => if certificate_of(vcek) is Err {
            Err(ChainError::BadLink(ChainLink::Leaf))
        } else {
            Ok(())
        },
    }
}

/// The verdict on a report for a generation, given what the chain stage
/// found. The first stage that fails decides: the chain, the signature, the
/// TCB version.
pub open spec fn verdict_given_chain(
    report: AttestationReport,
    generation: ProcessorGeneration,
    vcek: Seq<u8>,
    chain: Result<(), ChainError>,
) -> Result<(), VerificationError> {
    let leaf = certificate_of(vcek)->Ok_0;
    if chain is Err {
        Err(VerificationError::CertificateChainError(ChainFailure::Verification(chain->Err_0)))
    } else if signature_verdict(report, leaf) is Err {
        Err(VerificationError::SignatureInvalid(signature_verdict(report, leaf)->Err_0))
    } else if tcb_verdict(report, generation, leaf) is Err {
        Err(VerificationError::TcbMismatch(tcb_verdict(report, generation, leaf)->Err_0))
    } else {
        Ok(())
    }
}

/// The verdict on a report for a generation.
pub open spec fn verdict_for(
    report: AttestationReport,
    generation: ProcessorGeneration,
    vcek: Seq<u8>,
    mode: ChainVerification,
) -> Result<(), VerificationError> {
    verdict_given_chain(report, generation, vcek, chain_stage(generation, vcek, mode))
}

/// The generation that a report names.
pub open spec fn generation_in(report: AttestationReport) -> Option<ProcessorGeneration> {
    generation_of(report.cpuid_fam_id, report.cpuid_mod_id)
}

/// The verdict on a report: that of the generation which the report names,
/// and a refusal where it names none that is supported.
pub open spec fn attestation_verdict(
    report: AttestationReport,
    vcek: Seq<u8>,
    mode: ChainVerification,
) -> Result<(), VerificationError> {
    match generation_in(report) {
        None => Err(
            VerificationError::UnsupportedProcessor(
                UnsupportedProcessorError {
                    family: report.cpuid_fam_id,
                    model: report.cpuid_mod_id,
                },
            ),
        ),
        Some(generation) => verdict_for(report, generation, vcek, mode),
    }
}

/// Puts a signature in the form that the curve takes: `r` then `s`, 48
/// octets each. `None` where a component does not fit.
pub fn signature_scalars(signature: &Signature) -> (r: Option<Vec<u8>>)
    ensures
        match r {
            Some(v) => scalars_of(*signature) == Some(v@),
            None => scalars_of(*signature) is None,
        },
{
    if !is_zero_range(signature.r.as_slice(), 0, 24) || !is_zero_range(
        signature.s.as_slice(),
        0,
        24,
    ) {
        return None;
    }
    Some(
        join(
            vstd::slice::slice_subrange(signature.r.as_slice(), 24, 72),
            vstd::slice::slice_subrange(signature.s.as_slice(), 24, 72),
        ),
    )
}

/// Checks a report's signature under a chip's certificate.
pub fn check_signature(report: &AttestationReport, vcek: &Certificate) -> (r: Result<
    (),
    SignatureError,
>)
    ensures
        r == signature_verdict(*report, vcek@),
{
    if report.signature_algorithm != ALGORITHM_ECDSA_P384_SHA384 {
        return Err(SignatureError::UnsupportedAlgorithm(report.signature_algorithm));
    }
    let point = match ec_point(vcek) {
        Some(p) => p,
        None => { return Err(SignatureError::NoKey); },
    };
    let scalars = match signature_scalars(&report.signature) {
        Some(s) => s,
        None => { return Err(SignatureError::Malformed); },
    };
    let message = report.signed_bytes();
    if ecdsa_p384_sha384_verify(point, message.as_slice(), scalars.as_slice()) {
        Ok(())
    } else {
        Err(SignatureError::Rejected)
    }
}

/// Holds a certificate's chip identifier against a report's.
pub fn check_chip_id(endorsed: &[u8], reported: &[u8]) -> (r: bool)
    ensures
        r == chip_id_matches(endorsed@, reported@),
{
    let n = endorsed.len();
    if n > reported.len() {
        return false;
    }
    let front = vstd::slice::slice_subrange(reported, 0, n);
    if !crate::der::same_bytes(endorsed, front) {
        return false;
    }
    is_zero_range(reported, n, reported.len())
}

/// Checks that a report belongs to a chip's certificate.
pub fn check_tcb(
    report: &AttestationReport,
    generation: ProcessorGeneration,
    vcek: &Certificate,
) -> (r: Result<(), TcbError>)
    ensures
        r == tcb_verdict(*report, generation, vcek@),
{
    let reported = report.reported_tcb.components(generation);
    let endorsed = match read_endorsed_tcb(vcek) {
        Some(t) => t,
        None => { return Err(TcbError::Missing); },
    };
    let chip_id = match read_endorsed_chip_id(vcek) {
        Some(id) => id,
        None => { return Err(TcbError::Missing); },
    };
    if reported.bootloader != endorsed.bootloader {
        return Err(
            TcbError::Component {
                component: TcbComponent::Bootloader,
                reported: reported.bootloader,
                endorsed: endorsed.bootloader,
            },
        );
    }
    if reported.tee != endorsed.tee {
        return Err(
            TcbError::Component {
                component: TcbComponent::Tee,
                reported: reported.tee,
                endorsed: endorsed.tee,
            },
        );
    }
    if reported.snp != endorsed.snp {
        return Err(
            TcbError::Component {
                component: TcbComponent::Snp,
                reported: reported.snp,
                endorsed: endorsed.snp,
            },
        );
    }
    if reported.microcode != endorsed.microcode {
        return Err(
            TcbError::Component {
                component: TcbComponent::Microcode,
                reported: reported.microcode,
                endorsed: endorsed.microcode,
            },
        );
    }
    if !check_chip_id(chip_id, report.chip_id.as_slice()) {
        return Err(TcbError::ChipId);
    }
    Ok(())
}

/// Checks a report's signature and TCB version under a chip's certificate
/// that is known to be genuine: the two stages that follow the chain.
pub fn verify_report(
    report: &AttestationReport,
    generation: ProcessorGeneration,
    vcek: &Certificate,
) -> (r: Result<(), VerificationError>)
    ensures
        r == (if signature_verdict(*report, vcek@) is Err {
            Err::<(), VerificationError>(
                VerificationError::SignatureInvalid(signature_verdict(*report, vcek@)->Err_0),
            )
        } else if tcb_verdict(*report, generation, vcek@) is Err {
            Err(VerificationError::TcbMismatch(tcb_verdict(*report, generation, vcek@)->Err_0))
        } else {
            Ok(())
        }),
{
    match check_signature(report, vcek) {
        Err(e) => { return Err(VerificationError::SignatureInvalid(e)); },
        Ok(()) => {},
    }
    match check_tcb(report, generation, vcek) {
        Err(e) => Err(VerificationError::TcbMismatch(e)),
        Ok(()) => Ok(()),
    }
}

/// Verifies a report that a part of a known generation issued against the
/// chip's endorsement key certificate, given in DER, verifying the
/// certificate's chain first unless told to skip it.
pub fn verify_for_generation(
    report: &AttestationReport,
    generation: ProcessorGeneration,
    vcek: &[u8],
    chain_mode: ChainVerification,
) -> (r: Result<(), VerificationError>)
    ensures
        r == verdict_for(*report, generation, vcek@, chain_mode),
{
    match chain_mode {
        ChainVerification::Full { ark, ask, expiry } => {
            match verify_chain(generation, ark, ask, vcek, expiry) {
                Err(e) => {
                    return Err(
                        VerificationError::CertificateChainError(ChainFailure::Verification(e)),
                    );
                },
                Ok(()) => {},
            }
        },
        ChainVerification::Skip => {},
    }
    let leaf = match Certificate::parse(vcek) {
        Ok(c) => c,
        Err(_) => {
            return Err(
                VerificationError::CertificateChainError(
                    ChainFailure::Verification(ChainError::BadLink(ChainLink::Leaf)),
                ),
            );
        },
    };
    verify_report(report, generation, &leaf)
}

/// Verifies a report against a chip's endorsement key certificate, given in
/// DER: resolves the generation that the report names, then verifies the
/// report for it.
pub fn verify_attestation(
    report: &AttestationReport,
    vcek: &[u8],
    chain_mode: ChainVerification,
) -> (r: Result<(), VerificationError>)
    ensures
        r == attestation_verdict(*report, vcek@, chain_mode),
{
    match ProcessorGeneration::from_family_and_model(report.cpuid_fam_id, report.cpuid_mod_id) {
        Ok(generation) => verify_for_generation(report, generation, vcek, chain_mode),
        Err(e) => Err(VerificationError::UnsupportedProcessor(e)),
    }
}

/// Where the chain stage fails, its error is the result, whatever the
/// signature and the firmware versions are.
pub proof fn chain_failure_decides(
    report: AttestationReport,
    generation: ProcessorGeneration,
    vcek: Seq<u8>,
    mode: ChainVerification,
)
    requires
        chain_stage(generation, vcek, mode) is Err,
    ensures
        verdict_for(report, generation, vcek, mode) == Err::<(), VerificationError>(
            VerificationError::CertificateChainError(
                ChainFailure::Verification(chain_stage(generation, vcek, mode)->Err_0),
            ),
        ),
{
}

/// With another generation's pinned root in place of the report's own, the
/// verdict is a chain failure, whatever the certificates and the signature
/// are.
pub proof fn foreign_root_fails_the_chain(
    report: AttestationReport,
    other: ProcessorGeneration,
    ark: &[u8],
    ask: &[u8],
    vcek: Seq<u8>,
    expiry: ExpiryPolicy,
)
    requires
        generation_in(report) is Some,
        generation_in(report) != Some(other),
        ark@ == crate::root_certs::pinned_ark(other),
    ensures
        attestation_verdict(report, vcek, ChainVerification::Full { ark, ask, expiry }) == Err::<
            (),
            VerificationError,
        >(
            VerificationError::CertificateChainError(
                ChainFailure::Verification(ChainError::GenerationMismatch),
            ),
        ),
{
    crate::chain::foreign_root_is_refused(generation_in(report)->0, other, ask@, vcek, expiry);
}

/// A report is accepted exactly when every stage holds.
pub proof fn accepted_means_every_stage(
    report: AttestationReport,
    vcek: Seq<u8>,
    mode: ChainVerification,
)
    ensures
        attestation_verdict(report, vcek, mode) is Ok <==> {
            &&& generation_in(report) is Some
            &&& chain_stage(generation_in(report)->0, vcek, mode) is Ok
            &&& signature_verdict(report, certificate_of(vcek)->Ok_0) is Ok
            &&& tcb_verdict(report, generation_in(report)->0, certificate_of(vcek)->Ok_0) is Ok
        },
{
}

/// A signature that the curve does not accept for the report's signed bytes
/// makes the verdict `SignatureInvalid`, where the chain holds and the
/// signature is well formed.
pub proof fn rejected_signature_is_invalid(
    report: AttestationReport,
    generation: ProcessorGeneration,
    vcek: Seq<u8>,
    mode: ChainVerification,
)
    requires
        chain_stage(generation, vcek, mode) is Ok,
        report.signature_algorithm == ALGORITHM_ECDSA_P384_SHA384,
        ec_point_of(certificate_of(vcek)->Ok_0) is Some,
        scalars_of(report.signature) is Some,
        !ecdsa_p384_sha384_accepts(
            ec_point_of(certificate_of(vcek)->Ok_0)->0,
            report.signed_region(),
            scalars_of(report.signature)->0,
        ),
    ensures
        verdict_for(report, generation, vcek, mode) == Err::<(), VerificationError>(
            VerificationError::SignatureInvalid(SignatureError::Rejected),
        ),
{
}

/// A report that was changed in a signed field and kept its signature is
/// accepted only if the curve accepts that signature for the changed bytes,
/// which are other bytes than those it was made for.
pub proof fn changed_report_needs_its_signature_to_fit(
    report: AttestationReport,
    changed: AttestationReport,
    generation: ProcessorGeneration,
    vcek: Seq<u8>,
    mode: ChainVerification,
)
    requires
        changed != report,
        changed.signature == report.signature,
        verdict_for(changed, generation, vcek, mode) is Ok,
    ensures
        changed.signed_region() != report.signed_region(),
        scalars_of(report.signature) is Some,
        ec_point_of(certificate_of(vcek)->Ok_0) is Some,
        ecdsa_p384_sha384_accepts(
            ec_point_of(certificate_of(vcek)->Ok_0)->0,
            changed.signed_region(),
            scalars_of(report.signature)->0,
        ),
{
    if changed.signed_region() == report.signed_region() {
        crate::report::signed_region_decides(changed, report);
    }
}

/// A chip certificate whose TCB version differs from the report's in any one
/// component makes the verdict `TcbMismatch`, where the chain and the
/// signature hold.
pub proof fn differing_tcb_is_a_mismatch(
    report: AttestationReport,
    generation: ProcessorGeneration,
    vcek: Seq<u8>,
    mode: ChainVerification,
)
    requires
        chain_stage(generation, vcek, mode) is Ok,
        signature_verdict(report, certificate_of(vcek)->Ok_0) is Ok,
        endorsed_tcb(certificate_of(vcek)->Ok_0) != Some(
            tcb_components(report.reported_tcb.raw@, generation),
        ),
    ensures
        verdict_for(report, generation, vcek, mode) is Err,
        verdict_for(report, generation, vcek, mode)->Err_0 is TcbMismatch,
{
}

} // verus!
