//! The verifier that callers hold, and the summary it hands out.
//!
//! Fetching certificates is not done here. A caller asks the verifier what a
//! report needs, fetches it, and hands the verifier what came back.
use crate::certificate::certificate_of;
use crate::chain::{chain_verdict, ChainError, ExpiryPolicy};
use crate::der::same_bytes;
use crate::generation::{ProcessorGeneration, UnsupportedProcessorError};
use crate::messages::{describe, describe_parse, message_of, parse_message_of};
use crate::report::{
    parse_verdict, report_of, AttestationReport, ParseError, TcbVersion, REPORT_LEN,
};
use crate::root_certs::{ark_for, pinned_ark};
use crate::verify::{
    attestation_verdict, generation_in, signature_verdict, tcb_verdict,
    verdict_given_chain, verify_attestation, verify_for_generation, AcquisitionError, ChainFailure,
    ChainVerification, VerificationError,
};
use vstd::prelude::*;

verus! {

/// What was found at each stage of a verification.
#[derive(Clone, Debug, PartialEq, Eq)]
pub struct SevVerificationDetails {
    /// Whether the report names a supported processor generation.
    pub processor_identified: bool,
    /// Whether the certificates for the report were at hand.
    pub certificates_fetched: bool,
    /// Whether the chain from the root key to the chip's key holds.
    pub certificate_chain_valid: bool,
    /// Whether the report's signature verifies under the chip's key.
    pub signature_valid: bool,
    /// Whether the report's firmware versions are those of the chip's key.
    pub tcb_valid: bool,
    /// The generation's name, where one was identified.
    pub processor_model: Option<String>,
}

/// The summary of one verification.
#[derive(Clone, Debug, PartialEq, Eq)]
pub struct SevVerificationResult {
    /// Whether every stage succeeded.
    pub is_valid: bool,
    /// What was found at each stage.
    pub details: SevVerificationDetails,
    /// What went wrong, in the order in which it was found.
    pub errors: Vec<String>,
}

/// The details as contracts see them.
pub struct SevVerificationDetailsView {
    pub processor_identified: bool,
    pub certificates_fetched: bool,
    pub certificate_chain_valid: bool,
    pub signature_valid: bool,
    pub tcb_valid: bool,
    pub processor_model: Option<Seq<char>>,
}

/// The summary as contracts see it.
pub struct SevVerificationResultView {
    pub is_valid: bool,
    pub details: SevVerificationDetailsView,
    pub errors: Seq<Seq<char>>,
}

impl View for SevVerificationDetails {
    type V = SevVerificationDetailsView;

    open spec fn view(&self) -> SevVerificationDetailsView {
        SevVerificationDetailsView {
            processor_identified: self.processor_identified,
            certificates_fetched: self.certificates_fetched,
            certificate_chain_valid: self.certificate_chain_valid,
            signature_valid: self.signature_valid,
            tcb_valid: self.tcb_valid,
            processor_model: match self.processor_model {
                Some(name) => Some(name@),
                None => None,
            },
        }
    }
}

impl View for SevVerificationResult {
    type V = SevVerificationResultView;

    open spec fn view(&self) -> SevVerificationResultView {
        SevVerificationResultView {
            is_valid: self.is_valid,
            details: self.details@,
            errors: self.errors@.map_values(|s: String| s@),
        }
    }
}

/// The stage at which an outcome stopped, counted from 0 for the processor
/// to 4 for the TCB version; 5 where nothing failed.
pub open spec fn failed_stage(outcome: Result<(), VerificationError>) -> int {
    match outcome {
        Err(VerificationError::UnsupportedProcessor(_)) => 0,
        Err(VerificationError::CertificateChainError(ChainFailure::Acquisition(_))) => 1,
        Err(VerificationError::CertificateChainError(ChainFailure::Verification(_))) => 2,
        Err(VerificationError::SignatureInvalid(_)) => 3,
        Err(VerificationError::TcbMismatch(_)) => 4,
        Ok(_) => 5,
    }
}

/// The summary of an outcome for a report whose generation was identified
/// as given, or not at all. A stage's flag is set exactly when the
/// generation is known and the outcome stopped at a later stage, or nowhere.
/// There is one message, that of the outcome's error, unless the report is
/// valid.
pub open spec fn summary_of(
    generation: Option<ProcessorGeneration>,
    outcome: Result<(), VerificationError>,
) -> SevVerificationResultView {
    let reached = if generation is Some {
        failed_stage(outcome)
    } else {
        0
    };
    SevVerificationResultView {
        is_valid: reached > 4,
        details: SevVerificationDetailsView {
            processor_identified: reached > 0,
            certificates_fetched: reached > 1,
            certificate_chain_valid: reached > 2,
            signature_valid: reached > 3,
            tcb_valid: reached > 4,
            processor_model: if reached > 0 {
                Some(generation->0.spec_name())
            } else {
                None
            },
        },
        errors: match outcome {
            Err(e) => seq![message_of(e)],
            Ok(_) => if generation is Some {
                Seq::empty()
            } else {
                seq![
                    message_of(
                        VerificationError::UnsupportedProcessor(
                            UnsupportedProcessorError { family: 0, model: 0 },
                        ),
                    ),
                ]
            },
        },
    }
}

/// The summary for a blob that was not decoded as a report.
pub open spec fn unreadable_summary(error: ParseError) -> SevVerificationResultView {
    SevVerificationResultView {
        is_valid: false,
        details: SevVerificationDetailsView {
            processor_identified: false,
            certificates_fetched: false,
            certificate_chain_valid: false,
            signature_valid: false,
            tcb_valid: false,
            processor_model: None,
        },
        errors: seq![parse_message_of(error)],
    }
}

fn stage_of(outcome: &Result<(), VerificationError>) -> (stage: u8)
    ensures
        stage == failed_stage(*outcome),
{
    match outcome {
        Err(VerificationError::UnsupportedProcessor(_)) => 0,
        Err(VerificationError::CertificateChainError(ChainFailure::Acquisition(_))) => 1,
        Err(VerificationError::CertificateChainError(ChainFailure::Verification(_))) => 2,
        Err(VerificationError::SignatureInvalid(_)) => 3,
        Err(VerificationError::TcbMismatch(_)) => 4,
        Ok(_) => 5,
    }
}

impl SevVerificationResult {
    /// Sums up an outcome.
    pub fn from_outcome(
        generation: Option<ProcessorGeneration>,
        outcome: &Result<(), VerificationError>,
    ) -> (r: SevVerificationResult)
        ensures
            r@ == summary_of(generation, *outcome),
    {
        let reached: u8 = match generation {
            Some(_) => stage_of(outcome),
            None => 0,
        };
        let mut errors: Vec<String> = Vec::new();
        match outcome {
            Err(e) => {
                errors.push(describe(e));
            },
            Ok(_) => {
                if generation.is_none() {
                    errors.push(
                        describe(
                            &VerificationError::UnsupportedProcessor(
                                UnsupportedProcessorError { family: 0, model: 0 },
                            ),
                        ),
                    );
                }
            },
        }
        let processor_model = match generation {
            Some(g) => if reached > 0 {
                Some(g.name())
            } else {
                None
            },
            None => None,
        };
        let r = SevVerificationResult {
            is_valid: reached > 4,
            details: SevVerificationDetails {
                processor_identified: reached > 0,
                certificates_fetched: reached > 1,
                certificate_chain_valid: reached > 2,
                signature_valid: reached > 3,
                tcb_valid: reached > 4,
                processor_model,
            },
            errors,
        };
        assert(r@.errors =~= summary_of(generation, *outcome).errors);
        r
    }

    /// Sums up the refusal of a blob that was not decoded as a report.
    pub fn unreadable(error: &ParseError) -> (r: SevVerificationResult)
        ensures
            r@ == unreadable_summary(*error),
    {
        let mut errors: Vec<String> = Vec::new();
        errors.push(describe_parse(error));
        let r = SevVerificationResult {
            is_valid: false,
            details: SevVerificationDetails {
                processor_identified: false,
                certificates_fetched: false,
                certificate_chain_valid: false,
                signature_valid: false,
                tcb_valid: false,
                processor_model: None,
            },
            errors,
        };
        assert(r@.errors =~= unreadable_summary(*error).errors);
        r
    }
}

/// The summary of an offline verification: of a blob and the three
/// certificates of its chain, all supplied by the caller.
pub open spec fn offline_summary(
    report: Seq<u8>,
    ark: &[u8],
    ask: &[u8],
    vcek: Seq<u8>,
    expiry: ExpiryPolicy,
) -> SevVerificationResultView {
    match parse_verdict(report) {
        Some(e) => unreadable_summary(e),
        None => summary_of(
            generation_in(report_of(report)),
            attestation_verdict(report_of(report), vcek, ChainVerification::Full { ark, ask, expiry }),
        ),
    }
}

/// Verifies a report blob against certificates that the caller supplies,
/// chain included, and sums up what was found.
pub fn verify_offline(report: &[u8], ark: &[u8], ask: &[u8], vcek: &[u8], expiry: ExpiryPolicy) -> (r:
    SevVerificationResult)
    ensures
        r@ == offline_summary(report@, ark, ask, vcek@, expiry),
{
    let decoded = match AttestationReport::parse(report) {
        Ok(d) => d,
        Err(e) => { return SevVerificationResult::unreadable(&e); },
    };
    let generation = match ProcessorGeneration::from_family_and_model(
        decoded.cpuid_fam_id,
        decoded.cpuid_mod_id,
    ) {
        Ok(g) => Some(g),
        Err(_) => None,
    };
    let outcome = verify_attestation(&decoded, vcek, ChainVerification::Full { ark, ask, expiry });
    SevVerificationResult::from_outcome(generation, &outcome)
}

/// What identifies the chip certificate that a report needs.
#[derive(Clone, Copy, Debug, PartialEq, Eq)]
pub struct CertificateRequest {
    pub generation: ProcessorGeneration,
    pub chip_id: [u8; 64],
    pub reported_tcb: TcbVersion,
}

/// The request for a report of a generation.
pub open spec fn request_of(
    report: AttestationReport,
    generation: ProcessorGeneration,
) -> CertificateRequest {
    CertificateRequest { generation, chip_id: report.chip_id, reported_tcb: report.reported_tcb }
}

/// The certificates that were fetched for a request, in DER.
#[derive(Clone, Debug, PartialEq, Eq)]
pub struct FetchedCertificates {
    pub ask: Vec<u8>,
    pub vcek: Vec<u8>,
}

/// Fetched certificates as contracts see them.
pub struct FetchedView {
    pub ask: Seq<u8>,
    pub vcek: Seq<u8>,
}

impl View for FetchedCertificates {
    type V = FetchedView;

    open spec fn view(&self) -> FetchedView {
        FetchedView { ask: self.ask@, vcek: self.vcek@ }
    }
}

/// What a fetch came back with, as contracts see it.
pub open spec fn acquired_view(acquired: Result<FetchedCertificates, AcquisitionError>) -> Result<
    FetchedView,
    AcquisitionError,
> {
    match acquired {
        Ok(f) => Ok(f@),
        Err(e) => Err(e),
    }
}

/// A chip certificate whose chain was verified, with what it was verified
/// against.
pub struct VerifiedKey {
    pub request: CertificateRequest,
    pub ask: Vec<u8>,
    pub vcek: Vec<u8>,
    pub expiry: ExpiryPolicy,
}

/// A verified chip certificate as contracts see it.
pub struct VerifiedKeyView {
    pub request: CertificateRequest,
    pub ask: Seq<u8>,
    pub vcek: Seq<u8>,
    pub expiry: ExpiryPolicy,
}

impl View for VerifiedKey {
    type V = VerifiedKeyView;

    open spec fn view(&self) -> VerifiedKeyView {
        VerifiedKeyView {
            request: self.request,
            ask: self.ask@,
            vcek: self.vcek@,
            expiry: self.expiry,
        }
    }
}

/// The verifier as contracts see it.
pub struct SevVerifierView {
    pub caching: bool,
    pub verified: Seq<VerifiedKeyView>,
}

/// The verifier. It keeps the chip certificates whose chain it has verified,
/// if it was made to.
pub struct SevVerifier {
    caching: bool,
    verified: Vec<VerifiedKey>,
}

impl View for SevVerifier {
    type V = SevVerifierView;

    closed spec fn view(&self) -> SevVerifierView {
        SevVerifierView {
            caching: self.caching,
            verified: self.verified@.map_values(|k: VerifiedKey| k@),
        }
    }
}

/// The first kept certificate at or after `from` that answers a request.
pub open spec fn lookup(keys: Seq<VerifiedKeyView>, request: CertificateRequest, from: int) -> Option<
    VerifiedKeyView,
>
    decreases keys.len() - from,
{
    if from < 0 || from >= keys.len() {
        None
    } else if keys[from].request == request {
        Some(keys[from])
    } else {
        lookup(keys, request, from + 1)
    }
}

/// Whether a kept certificate's chain holds from the root pinned for its
/// generation.
pub open spec fn key_holds(key: VerifiedKeyView) -> bool {
    chain_verdict(
        key.request.generation,
        pinned_ark(key.request.generation),
        key.ask,
        key.vcek,
        key.expiry,
    ) is Ok
}

impl SevVerifierView {
    /// Every kept certificate's chain holds.
    pub open spec fn wf(self) -> bool {
        forall|i: int| 0 <= i < self.verified.len() ==> key_holds(#[trigger] self.verified[i])
    }
}

/// The verdict on a report under certificates that were just fetched: the
/// chain is verified from the root pinned for the generation.
pub open spec fn fresh_verdict(
    report: AttestationReport,
    generation: ProcessorGeneration,
    fetched: FetchedView,
    expiry: ExpiryPolicy,
) -> Result<(), VerificationError> {
    verdict_given_chain(
        report,
        generation,
        fetched.vcek,
        chain_verdict(generation, pinned_ark(generation), fetched.ask, fetched.vcek, expiry),
    )
}

/// The verifier's verdict on a report. Under a kept certificate for the
/// report the chain is not verified again; else the fetched certificates
/// decide, and a failed fetch is a failure of the chain stage.
pub open spec fn facade_verdict(
    verifier: SevVerifierView,
    report: AttestationReport,
    acquired: Result<FetchedView, AcquisitionError>,
    expiry: ExpiryPolicy,
) -> Result<(), VerificationError> {
    match generation_in(report) {
        None => Err(
            VerificationError::UnsupportedProcessor(
                UnsupportedProcessorError {
                    family: report.cpuid_fam_id,
                    model: report.cpuid_mod_id,
                },
            ),
        ),
        Some(generation) => match lookup(verifier.verified, request_of(report, generation), 0) {
            Some(key) => verdict_given_chain(report, generation, key.vcek, Ok(())),
            None => match acquired {
                Err(e) => Err(VerificationError::CertificateChainError(ChainFailure::Acquisition(e))),
                Ok(fetched) => fresh_verdict(report, generation, fetched, expiry),
            },
        },
    }
}

/// Whether a verification adds the fetched certificates to those kept: the
/// verifier keeps certificates, held none for the report, and the chain of
/// the fetched ones holds from the root pinned for the report's generation.
/// What the report's signature and TCB version come to has no part in it.
pub open spec fn keeps_fetched(
    verifier: SevVerifierView,
    report: AttestationReport,
    acquired: Result<FetchedView, AcquisitionError>,
    expiry: ExpiryPolicy,
) -> bool {
    &&& verifier.caching
    &&& generation_in(report) is Some
    &&& lookup(verifier.verified, request_of(report, generation_in(report)->0), 0) is None
    &&& acquired is Ok
    &&& chain_verdict(
        generation_in(report)->0,
        pinned_ark(generation_in(report)->0),
        acquired->Ok_0.ask,
        acquired->Ok_0.vcek,
        expiry,
    ) is Ok
}

/// The verifier after a verification.
pub open spec fn facade_next(
    verifier: SevVerifierView,
    report: AttestationReport,
    acquired: Result<FetchedView, AcquisitionError>,
    expiry: ExpiryPolicy,
) -> SevVerifierView {
    if keeps_fetched(verifier, report, acquired, expiry) {
        SevVerifierView {
            caching: verifier.caching,
            verified: verifier.verified.push(
                VerifiedKeyView {
                    request: request_of(report, generation_in(report)->0),
                    ask: acquired->Ok_0.ask,
                    vcek: acquired->Ok_0.vcek,
                    expiry,
                },
            ),
        }
    } else {
        verifier
    }
}

fn same_request(a: &CertificateRequest, b: &CertificateRequest) -> (r: bool)
    ensures
        r == (*a == *b),
{
    let r = a.generation == b.generation && same_bytes(a.chip_id.as_slice(), b.chip_id.as_slice())
        && same_bytes(a.reported_tcb.raw.as_slice(), b.reported_tcb.raw.as_slice());
    proof {
        if r {
            assert(a.chip_id =~= b.chip_id);
            assert(a.reported_tcb.raw =~= b.reported_tcb.raw);
            assert(a.reported_tcb == b.reported_tcb);
        }
    }
    r
}

impl SevVerifier {
    /// A verifier that keeps nothing between calls.
    pub fn new() -> (v: SevVerifier)
        ensures
            v@ == (SevVerifierView { caching: false, verified: Seq::empty() }),
            v@.wf(),
    {
        let v = SevVerifier { caching: false, verified: Vec::new() };
        assert(v@.verified =~= Seq::empty());
        v
    }

    /// A verifier that keeps the certificates it was handed whose chain held,
    /// and does not ask for them again, whatever became of the report they
    /// were fetched for.
    pub fn with_cache() -> (v: SevVerifier)
        ensures
            v@ == (SevVerifierView { caching: true, verified: Seq::empty() }),
            v@.wf(),
    {
        let v = SevVerifier { caching: true, verified: Vec::new() };
        assert(v@.verified =~= Seq::empty());
        v
    }

    fn find(&self, request: &CertificateRequest) -> (r: Option<usize>)
        ensures
            match r {
                Some(i) => i < self.verified@.len() && lookup(self@.verified, *request, 0) == Some(
                    self.verified@[i as int]@,
                ),
                None => lookup(self@.verified, *request, 0) is None,
            },
    {
        let ghost keys = self@.verified;
        let mut i: usize = 0;
        while i < self.verified.len()
            invariant
                i <= self.verified@.len(),
                keys == self@.verified,
                keys.len() == self.verified@.len(),
                lookup(keys, *request, 0) == lookup(keys, *request, i as int),
            decreases self.verified@.len() - i,
        {
            assert(keys[i as int] == self.verified@[i as int]@);
            if same_request(&self.verified[i].request, request) {
                return Some(i);
            }
            i += 1;
        }
        None
    }

    /// Says what must be fetched before a report can be verified: nothing
    /// where a certificate for it is kept, else the chip certificate that
    /// the request names, with the generation's signing key certificate.
    pub fn certificates_needed(&self, report: &AttestationReport) -> (r: Result<
        Option<CertificateRequest>,
        VerificationError,
    >)
        ensures
            r == (match generation_in(*report) {
                None => Err::<Option<CertificateRequest>, VerificationError>(
                    VerificationError::UnsupportedProcessor(
                        UnsupportedProcessorError {
                            family: report.cpuid_fam_id,
                            model: report.cpuid_mod_id,
                        },
                    ),
                ),
                Some(generation) => Ok(
                    if lookup(self@.verified, request_of(*report, generation), 0) is Some {
                        None
                    } else {
                        Some(request_of(*report, generation))
                    },
                ),
            }),
    {
        let generation = match ProcessorGeneration::from_family_and_model(
            report.cpuid_fam_id,
            report.cpuid_mod_id,
        ) {
            Ok(g) => g,
            Err(e) => { return Err(VerificationError::UnsupportedProcessor(e)); },
        };
        let request = CertificateRequest {
            generation,
            chip_id: report.chip_id,
            reported_tcb: report.reported_tcb,
        };
        match self.find(&request) {
            Some(_) => Ok(None),
            None => Ok(Some(request)),
        }
    }

    /// Verifies a report. `acquired` is what fetching the certificates that
    /// `certificates_needed` asked for came back with, and `expiry` the
    /// policy under which their chain is verified; neither is looked at
    /// where a certificate for the report is kept, whose chain was verified
    /// when it was fetched.
    pub fn verify_attestation(
        &mut self,
        report: &AttestationReport,
        acquired: Result<FetchedCertificates, AcquisitionError>,
        expiry: ExpiryPolicy,
    ) -> (r: Result<(), VerificationError>)
        requires
            old(self)@.wf(),
        ensures
            r == facade_verdict(old(self)@, *report, acquired_view(acquired), expiry),
            final(self)@ == facade_next(old(self)@, *report, acquired_view(acquired), expiry),
            final(self)@.wf(),
    {
        let generation = match ProcessorGeneration::from_family_and_model(
            report.cpuid_fam_id,
            report.cpuid_mod_id,
        ) {
            Ok(g) => g,
            Err(e) => { return Err(VerificationError::UnsupportedProcessor(e)); },
        };
        let request = CertificateRequest {
            generation,
            chip_id: report.chip_id,
            reported_tcb: report.reported_tcb,
        };
        match self.find(&request) {
            Some(i) => {
                proof {
                    let key = self.verified@[i as int]@;
                    assert(key == self@.verified[i as int]);
                    assert(key_holds(key));
                }
                return verify_for_generation(
                    report,
                    generation,
                    self.verified[i].vcek.as_slice(),
                    ChainVerification::Skip,
                );
            },
            None => {},
        }
        let fetched = match acquired {
            Ok(f) => f,
            Err(e) => {
                return Err(VerificationError::CertificateChainError(ChainFailure::Acquisition(e)));
            },
        };
        let r = verify_for_generation(
            report,
            generation,
            fetched.vcek.as_slice(),
            ChainVerification::Full {
                ark: ark_for(generation),
                ask: fetched.ask.as_slice(),
                expiry,
            },
        );
        let chain_held = match r {
            Err(VerificationError::CertificateChainError(_)) => false,
            _ => true,
        };
        if chain_held && self.caching {
            let ghost before = self@.verified;
            let key = VerifiedKey { request, ask: fetched.ask, vcek: fetched.vcek, expiry };
            let ghost added = key@;
            self.verified.push(key);
            proof {
                assert(self@.verified =~= before.push(added));
                assert(key_holds(added));
                assert forall|k: int| 0 <= k < self@.verified.len() implies key_holds(
                    #[trigger] self@.verified[k],
                ) by {
                    if k < before.len() {
                        assert(self@.verified[k] == before[k]);
                    }
                }
            }
        }
        r
    }
}

/// A summary is valid exactly when a generation was identified and nothing
/// failed, and then every flag is set and there is no message; else there
/// is one message, and the flag of the stage that failed is not set.
pub proof fn valid_means_every_stage(
    generation: Option<ProcessorGeneration>,
    outcome: Result<(), VerificationError>,
)
    ensures
        ({
            let s = summary_of(generation, outcome);
            &&& s.is_valid <==> generation is Some && outcome is Ok
            &&& s.is_valid <==> s.details.processor_identified && s.details.certificates_fetched
                && s.details.certificate_chain_valid && s.details.signature_valid
                && s.details.tcb_valid
            &&& s.is_valid ==> s.errors.len() == 0
            &&& !s.is_valid ==> s.errors.len() == 1
            &&& s.details.processor_model is Some <==> s.details.processor_identified
        }),
{
}

/// A report whose generation is supported, whose chain holds from the
/// generation's pinned root, whose signature verifies and whose TCB version
/// is the chip certificate's, is summed up as valid, with every flag set, the
/// generation's name, and no message.
pub proof fn genuine_report_is_valid(
    report: AttestationReport,
    ark: &[u8],
    ask: &[u8],
    vcek: Seq<u8>,
    expiry: ExpiryPolicy,
)
    requires
        parse_verdict(report.wire()) is None,
        generation_in(report) is Some,
        chain_verdict(generation_in(report)->0, ark@, ask@, vcek, expiry) is Ok,
        signature_verdict(report, certificate_of(vcek)->Ok_0) is Ok,
        tcb_verdict(report, generation_in(report)->0, certificate_of(vcek)->Ok_0) is Ok,
    ensures
        offline_summary(report.wire(), ark, ask, vcek, expiry) == (SevVerificationResultView {
            is_valid: true,
            details: SevVerificationDetailsView {
                processor_identified: true,
                certificates_fetched: true,
                certificate_chain_valid: true,
                signature_valid: true,
                tcb_valid: true,
                processor_model: Some(generation_in(report)->0.spec_name()),
            },
            errors: Seq::empty(),
        }),
{
    crate::report::report_of_wire(report);
}

/// With another generation's pinned root in place of the report's own, the
/// summary is not valid, the chain flag is not set, the signature flag is
/// not set either, and the one message is the chain's.
pub proof fn foreign_root_is_summed_up_as_chain_failure(
    report: AttestationReport,
    other: ProcessorGeneration,
    ark: &[u8],
    ask: &[u8],
    vcek: Seq<u8>,
    expiry: ExpiryPolicy,
)
    requires
        parse_verdict(report.wire()) is None,
        generation_in(report) is Some,
        generation_in(report) != Some(other),
        ark@ == pinned_ark(other),
    ensures
        offline_summary(report.wire(), ark, ask, vcek, expiry) == (SevVerificationResultView {
            is_valid: false,
            details: SevVerificationDetailsView {
                processor_identified: true,
                certificates_fetched: true,
                certificate_chain_valid: false,
                signature_valid: false,
                tcb_valid: false,
                processor_model: Some(generation_in(report)->0.spec_name()),
            },
            errors: seq![
                message_of(
                    VerificationError::CertificateChainError(
                        ChainFailure::Verification(ChainError::GenerationMismatch),
                    ),
                ),
            ],
        }),
{
    crate::report::report_of_wire(report);
    crate::verify::foreign_root_fails_the_chain(report, other, ark, ask, vcek, expiry);
}

/// A blob cut short by any amount is summed up as not valid, with no flag
/// set, whatever the certificates are.
pub proof fn truncated_report_is_not_valid(
    bytes: Seq<u8>,
    kept: int,
    ark: &[u8],
    ask: &[u8],
    vcek: Seq<u8>,
    expiry: ExpiryPolicy,
)
    requires
        bytes.len() <= REPORT_LEN,
        0 <= kept < bytes.len(),
    ensures
        offline_summary(bytes.subrange(0, kept), ark, ask, vcek, expiry) == unreadable_summary(
            ParseError::TruncatedInput,
        ),
        !offline_summary(bytes.subrange(0, kept), ark, ask, vcek, expiry).is_valid,
{
}

/// Looking up a request after a certificate for it was added at the end
/// finds what was found before, or else the added one.
pub proof fn lookup_after_push(
    keys: Seq<VerifiedKeyView>,
    added: VerifiedKeyView,
    request: CertificateRequest,
    from: int,
)
    requires
        0 <= from <= keys.len(),
    ensures
        lookup(keys.push(added), request, from) == (if lookup(keys, request, from) is Some {
            lookup(keys, request, from)
        } else if added.request == request {
            Some(added)
        } else {
            None
        }),
    decreases keys.len() - from,
{
    let longer = keys.push(added);
    if from < keys.len() {
        assert(longer[from] == keys[from]);
        if keys[from].request != request {
            lookup_after_push(keys, added, request, from + 1);
        }
    } else {
        assert(longer[from] == added);
        assert(lookup(keys, request, from) is None);
        assert(lookup(longer, request, from + 1) is None);
    }
}

/// Verifying does not break the verifier: what it keeps afterwards has a
/// chain that holds.
pub proof fn verifying_keeps_chains(
    verifier: SevVerifierView,
    report: AttestationReport,
    acquired: Result<FetchedView, AcquisitionError>,
    expiry: ExpiryPolicy,
)
    requires
        verifier.wf(),
    ensures
        facade_next(verifier, report, acquired, expiry).wf(),
{
    let next = facade_next(verifier, report, acquired, expiry);
    if keeps_fetched(verifier, report, acquired, expiry) {
        assert forall|i: int| 0 <= i < next.verified.len() implies key_holds(
            #[trigger] next.verified[i],
        ) by {
            if i < verifier.verified.len() {
                assert(next.verified[i] == verifier.verified[i]);
            }
        }
    }
}

/// Verifying the same report again with the same material gives the same
/// verdict, and leaves the verifier as the first verification left it.
pub proof fn repeat_gives_same(
    verifier: SevVerifierView,
    report: AttestationReport,
    acquired: Result<FetchedView, AcquisitionError>,
    expiry: ExpiryPolicy,
)
    ensures
        facade_verdict(facade_next(verifier, report, acquired, expiry), report, acquired, expiry)
            == facade_verdict(verifier, report, acquired, expiry),
        facade_next(facade_next(verifier, report, acquired, expiry), report, acquired, expiry)
            == facade_next(verifier, report, acquired, expiry),
{
    if keeps_fetched(verifier, report, acquired, expiry) {
        let generation = generation_in(report)->0;
        let request = request_of(report, generation);
        let added = VerifiedKeyView {
            request,
            ask: acquired->Ok_0.ask,
            vcek: acquired->Ok_0.vcek,
            expiry,
        };
        lookup_after_push(verifier.verified, added, request, 0);
    }
}

/// A verifier that keeps certificates keeps those it is handed once their
/// chain holds, even where the report is then refused for its signature or
/// its TCB version: the report's request is answered from what is kept
/// afterwards, by the fetched certificates where none were kept before.
pub proof fn held_chain_is_kept(
    verifier: SevVerifierView,
    report: AttestationReport,
    fetched: FetchedView,
    expiry: ExpiryPolicy,
)
    requires
        verifier.caching,
        generation_in(report) is Some,
        chain_verdict(
            generation_in(report)->0,
            pinned_ark(generation_in(report)->0),
            fetched.ask,
            fetched.vcek,
            expiry,
        ) is Ok,
    ensures
        ({
            let request = request_of(report, generation_in(report)->0);
            let before = lookup(verifier.verified, request, 0);
            let after = lookup(facade_next(verifier, report, Ok(fetched), expiry).verified, request, 0);
            &&& after is Some
            &&& before is Some ==> after == before
            &&& before is None ==> after == Some(
                VerifiedKeyView { request, ask: fetched.ask, vcek: fetched.vcek, expiry },
            )
        }),
{
    let request = request_of(report, generation_in(report)->0);
    let added = VerifiedKeyView { request, ask: fetched.ask, vcek: fetched.vcek, expiry };
    lookup_after_push(verifier.verified, added, request, 0);
}

/// A verifier that keeps nothing is never changed by a verification, and
/// one that keeps certificates is not changed where the chain stage fails.
pub proof fn failed_chain_keeps_nothing(
    verifier: SevVerifierView,
    report: AttestationReport,
    acquired: Result<FetchedView, AcquisitionError>,
    expiry: ExpiryPolicy,
)
    requires
        !verifier.caching || facade_verdict(verifier, report, acquired, expiry) matches Err(
            VerificationError::CertificateChainError(_),
        ),
    ensures
        facade_next(verifier, report, acquired, expiry) == verifier,
{
}

/// Keeping certificates changes no answer. Before and after its first
/// verification, a verifier that keeps certificates answers as one that
/// keeps nothing does.
pub proof fn kept_certificates_change_no_verdict(
    report: AttestationReport,
    acquired: Result<FetchedView, AcquisitionError>,
    expiry: ExpiryPolicy,
)
    ensures
        ({
            let keeping = SevVerifierView { caching: true, verified: Seq::empty() };
            let plain = SevVerifierView { caching: false, verified: Seq::empty() };
            &&& facade_verdict(keeping, report, acquired, expiry) == facade_verdict(
                plain,
                report,
                acquired,
                expiry,
            )
            &&& facade_verdict(
                facade_next(keeping, report, acquired, expiry),
                report,
                acquired,
                expiry,
            ) == facade_verdict(plain, report, acquired, expiry)
        }),
{
    let keeping = SevVerifierView { caching: true, verified: Seq::empty() };
    repeat_gives_same(keeping, report, acquired, expiry);
}

/// No report is accepted but under a chip certificate whose chain holds
/// from the pinned root of the report's generation, with a signature that
/// verifies and the certificate's TCB version.
pub proof fn accepted_rests_on_a_chain(
    verifier: SevVerifierView,
    report: AttestationReport,
    acquired: Result<FetchedView, AcquisitionError>,
    expiry: ExpiryPolicy,
)
    requires
        verifier.wf(),
        facade_verdict(verifier, report, acquired, expiry) is Ok,
    ensures
        generation_in(report) is Some,
        ({
            let generation = generation_in(report)->0;
            let kept = lookup(verifier.verified, request_of(report, generation), 0);
            let vcek = if kept is Some {
                kept->0.vcek
            } else {
                acquired->Ok_0.vcek
            };
            let ask = if kept is Some {
                kept->0.ask
            } else {
                acquired->Ok_0.ask
            };
            let policy = if kept is Some {
                kept->0.expiry
            } else {
                expiry
            };
            &&& kept is Some || acquired is Ok
            &&& chain_verdict(generation, pinned_ark(generation), ask, vcek, policy) is Ok
            &&& signature_verdict(report, certificate_of(vcek)->Ok_0) is Ok
            &&& tcb_verdict(report, generation, certificate_of(vcek)->Ok_0) is Ok
        }),
{
    let generation = generation_in(report)->0;
    lookup_holds(verifier.verified, request_of(report, generation), 0);
}

/// What a lookup finds answers the request, and where every kept
/// certificate's chain holds, so does its chain.
pub proof fn lookup_holds(keys: Seq<VerifiedKeyView>, request: CertificateRequest, from: int)
    requires
        0 <= from,
        forall|i: int| 0 <= i < keys.len() ==> key_holds(#[trigger] keys[i]),
    ensures
        lookup(keys, request, from) matches Some(key) ==> key_holds(key) && key.request
            == request,
    decreases keys.len() - from,
{
    if from < keys.len() && keys[from].request != request {
        lookup_holds(keys, request, from + 1);
    }
}

} // verus!
