//! Tests on reports and chip certificates made here, signed with a key made
//! here. No chain leads to them, so the chain is skipped.
use p384::ecdsa::signature::Signer;
use tee_attestation_verification_lib::certificate::Certificate;
use tee_attestation_verification_lib::chain::{ChainError, ChainLink};
use tee_attestation_verification_lib::generation::{ProcessorGeneration, UnsupportedProcessorError};
use tee_attestation_verification_lib::report::{AttestationReport, TcbComponents};
use tee_attestation_verification_lib::sev_verification::SevVerificationResult;
use tee_attestation_verification_lib::vcek::{read_endorsed_tcb, read_version};
use tee_attestation_verification_lib::verify::{
    check_chip_id, signature_scalars, verify_attestation, ChainFailure, ChainVerification,
    SignatureError, TcbComponent, TcbError, VerificationError,
};

fn tlv(tag: u8, content: &[u8]) -> Vec<u8> {
    let mut out = vec![tag];
    let n = content.len();
    if n < 0x80 {
        out.push(n as u8);
    } else if n < 0x100 {
        out.extend_from_slice(&[0x81, n as u8]);
    } else {
        out.extend_from_slice(&[0x82, (n >> 8) as u8, n as u8]);
    }
    out.extend_from_slice(content);
    out
}

fn seq(parts: &[Vec<u8>]) -> Vec<u8> {
    tlv(0x30, &parts.concat())
}

fn name(common_name: &str) -> Vec<u8> {
    let attribute = seq(&[tlv(0x06, &[0x55, 0x04, 0x03]), tlv(0x0c, common_name.as_bytes())]);
    seq(&[tlv(0x31, &attribute)])
}

fn version_extension(last: u8, version: u8) -> Vec<u8> {
    let integer = if version < 0x80 { tlv(0x02, &[version]) } else { tlv(0x02, &[0, version]) };
    seq(&[
        tlv(0x06, &[0x2b, 0x06, 0x01, 0x04, 0x01, 0x9c, 0x78, 0x01, 0x03, last]),
        tlv(0x04, &integer),
    ])
}

fn signing_key() -> p384::ecdsa::SigningKey {
    let mut secret = [0x5au8; 48];
    secret[0] = 0x01;
    p384::ecdsa::SigningKey::from_slice(&secret).unwrap()
}

/// A chip certificate for the key made here, endorsing these versions and
/// this chip identifier. Its own signature is 512 zero octets.
fn chip_certificate(tcb: TcbComponents, chip_id: &[u8]) -> Vec<u8> {
    let point = signing_key().verifying_key().to_encoded_point(false);
    let algorithm = seq(&[tlv(0x06, &[0x2a, 0x86, 0x48, 0x86, 0xf7, 0x0d, 0x01, 0x01, 0x0a])]);
    let key = seq(&[
        seq(&[
            tlv(0x06, &[0x2a, 0x86, 0x48, 0xce, 0x3d, 0x02, 0x01]),
            tlv(0x06, &[0x2b, 0x81, 0x04, 0x00, 0x22]),
        ]),
        tlv(0x03, &[&[0u8][..], point.as_bytes()].concat()),
    ]);
    let extensions = seq(&[
        version_extension(1, tcb.bootloader),
        version_extension(2, tcb.tee),
        version_extension(3, tcb.snp),
        version_extension(8, tcb.microcode),
        seq(&[tlv(0x06, &[0x2b, 0x06, 0x01, 0x04, 0x01, 0x9c, 0x78, 0x01, 0x04]), tlv(0x04, chip_id)]),
    ]);
    let body = seq(&[
        tlv(0xa0, &tlv(0x02, &[2])),
        tlv(0x02, &[0]),
        algorithm.clone(),
        name("SEV-Milan"),
        seq(&[tlv(0x17, b"230101000000Z"), tlv(0x18, b"20991231235959Z")]),
        name("SEV-VCEK"),
        key,
        tlv(0xa3, &extensions),
    ]);
    seq(&[body, algorithm, tlv(0x03, &[0u8; 513])])
}

/// A report of format version 3 from a part with this CPUID, with these
/// reported TCB bytes and this chip identifier, signed with the key made
/// here.
fn signed_report(family: u8, model: u8, tcb: [u8; 8], chip_id: [u8; 64]) -> AttestationReport {
    let mut bytes = vec![0u8; 1184];
    bytes[0] = 3;
    bytes[0x34] = 1;
    let mut report = AttestationReport::parse(&bytes).unwrap();
    report.cpuid_fam_id = family;
    report.cpuid_mod_id = model;
    report.reported_tcb.raw = tcb;
    report.chip_id = chip_id;
    report.measurement = [0xab; 48];
    sign(&mut report);
    report
}

fn sign(report: &mut AttestationReport) {
    let signature: p384::ecdsa::Signature = signing_key().sign(&report.signed_bytes());
    let bytes = signature.to_bytes();
    report.signature.r = [0; 72];
    report.signature.s = [0; 72];
    report.signature.r[24..].copy_from_slice(&bytes[..48]);
    report.signature.s[24..].copy_from_slice(&bytes[48..]);
}

const VERSIONS: TcbComponents = TcbComponents { bootloader: 4, tee: 1, snp: 0x17, microcode: 0xd5 };

fn chip() -> [u8; 64] {
    let mut id = [0u8; 64];
    for i in 0..64 {
        id[i] = (i as u8).wrapping_mul(7).wrapping_add(1);
    }
    id
}

fn accepted(family: u8, model: u8, tcb: [u8; 8], generation: ProcessorGeneration) {
    let report = signed_report(family, model, tcb, chip());
    let vcek = chip_certificate(VERSIONS, &chip());
    let outcome = verify_attestation(&report, &vcek, ChainVerification::Skip);
    assert!(outcome.is_ok(), "Offline verification should pass: {:?}", outcome);
    // The wire form carries all of it.
    let decoded = AttestationReport::parse(&report.to_bytes()).unwrap();
    assert_eq!(decoded, report);
    assert_eq!(verify_attestation(&decoded, &vcek, ChainVerification::Skip), Ok(()));
    let summary = SevVerificationResult::from_outcome(Some(generation), &outcome);
    assert!(summary.is_valid);
    assert!(summary.details.processor_identified);
    assert!(summary.details.certificates_fetched);
    assert!(summary.details.certificate_chain_valid);
    assert!(summary.details.signature_valid);
    assert!(summary.details.tcb_valid);
    assert_eq!(summary.details.processor_model, Some(generation.name()));
    assert!(summary.errors.is_empty());
}

#[test]
fn test_verify_genoa_attestation() {
    accepted(0x19, 0x11, [4, 1, 0, 0, 0, 0, 0x17, 0xd5], ProcessorGeneration::Genoa);
    accepted(0x19, 0xa0, [4, 1, 9, 9, 9, 9, 0x17, 0xd5], ProcessorGeneration::Genoa);
}

#[test]
fn test_verify_turin_attestation() {
    accepted(0x1a, 0x02, [0, 4, 1, 0x17, 0, 0, 0, 0xd5], ProcessorGeneration::Turin);
    accepted(0x1a, 0x11, [9, 4, 1, 0x17, 9, 9, 9, 0xd5], ProcessorGeneration::Turin);
}

#[test]
fn a_signed_milan_report_is_accepted() {
    accepted(0x19, 0x00, [4, 1, 0, 0, 0, 0, 0x17, 0xd5], ProcessorGeneration::Milan);
    accepted(0x19, 0x0f, [4, 1, 0, 0, 0, 0, 0x17, 0xd5], ProcessorGeneration::Milan);
}

#[test]
fn an_unknown_processor_is_refused_before_anything_else() {
    for (family, model) in [(0x19, 0x20), (0x19, 0x9f), (0x19, 0xb0), (0x1a, 0x12), (0x17, 0x01), (0, 0)] {
        let report = signed_report(family, model, [4, 1, 0, 0, 0, 0, 0x17, 0xd5], chip());
        let expected =
            Err(VerificationError::UnsupportedProcessor(UnsupportedProcessorError { family, model }));
        assert_eq!(verify_attestation(&report, &[], ChainVerification::Skip), expected);
        let vcek = chip_certificate(VERSIONS, &chip());
        assert_eq!(verify_attestation(&report, &vcek, ChainVerification::Skip), expected);
    }
}

#[test]
fn a_chip_certificate_that_cannot_be_read_fails_the_chain() {
    let report = signed_report(0x19, 0x01, [4, 1, 0, 0, 0, 0, 0x17, 0xd5], chip());
    let vcek = chip_certificate(VERSIONS, &chip());
    let expected = Err(VerificationError::CertificateChainError(ChainFailure::Verification(
        ChainError::BadLink(ChainLink::Leaf),
    )));
    assert_eq!(verify_attestation(&report, &vcek[..vcek.len() - 1], ChainVerification::Skip), expected);
    assert_eq!(verify_attestation(&report, &[], ChainVerification::Skip), expected);
    let mut longer = vcek.clone();
    longer.push(0);
    assert_eq!(verify_attestation(&report, &longer, ChainVerification::Skip), expected);
}

#[test]
fn a_changed_byte_of_the_signed_region_breaks_the_signature() {
    let report = signed_report(0x19, 0x01, [4, 1, 0, 0, 0, 0, 0x17, 0xd5], chip());
    let vcek = chip_certificate(VERSIONS, &chip());
    let bytes = report.to_bytes();
    // Bytes that hold neither the CPUID, the algorithm, the reported TCB nor the chip identifier.
    for at in [0usize, 4, 8, 0x10, 0x30, 0x38, 0x40, 0x50, 0x90, 0xc0, 0x18a, 0x18b, 0x1e0, 0x1f8, 0x29f] {
        for bit in [1u8, 0x80] {
            let mut changed = bytes.clone();
            changed[at] ^= bit;
            if let Ok(decoded) = AttestationReport::parse(&changed) {
                assert_eq!(
                    verify_attestation(&decoded, &vcek, ChainVerification::Skip),
                    Err(VerificationError::SignatureInvalid(SignatureError::Rejected)),
                    "byte {:#x}",
                    at
                );
            }
        }
    }
    // A change in the signed region comes before a TCB mismatch.
    let mut changed = report;
    changed.reported_tcb.raw[0] = 5;
    assert_eq!(
        verify_attestation(&changed, &vcek, ChainVerification::Skip),
        Err(VerificationError::SignatureInvalid(SignatureError::Rejected))
    );
}

#[test]
fn a_malformed_signature_is_refused() {
    let vcek = chip_certificate(VERSIONS, &chip());
    let mut report = signed_report(0x19, 0x01, [4, 1, 0, 0, 0, 0, 0x17, 0xd5], chip());
    report.signature.r[23] = 1;
    assert_eq!(signature_scalars(&report.signature), None);
    assert_eq!(
        verify_attestation(&report, &vcek, ChainVerification::Skip),
        Err(VerificationError::SignatureInvalid(SignatureError::Malformed))
    );
    let mut report = signed_report(0x19, 0x01, [4, 1, 0, 0, 0, 0, 0x17, 0xd5], chip());
    report.signature.s = [0; 72];
    assert_eq!(
        verify_attestation(&report, &vcek, ChainVerification::Skip),
        Err(VerificationError::SignatureInvalid(SignatureError::Rejected))
    );
    let mut report = signed_report(0x19, 0x01, [4, 1, 0, 0, 0, 0, 0x17, 0xd5], chip());
    report.signature_algorithm = 2;
    assert_eq!(
        verify_attestation(&report, &vcek, ChainVerification::Skip),
        Err(VerificationError::SignatureInvalid(SignatureError::UnsupportedAlgorithm(2)))
    );
    let report = signed_report(0x19, 0x01, [4, 1, 0, 0, 0, 0, 0x17, 0xd5], chip());
    let scalars = signature_scalars(&report.signature).unwrap();
    assert_eq!(scalars.len(), 96);
    assert_eq!(scalars[..48], report.signature.r[24..]);
    assert_eq!(scalars[48..], report.signature.s[24..]);
}

#[test]
fn a_differing_component_is_a_mismatch_whatever_the_generation() {
    let cases = [
        (TcbComponent::Bootloader, TcbComponents { bootloader: 5, ..VERSIONS }, 4u8, 5u8),
        (TcbComponent::Tee, TcbComponents { tee: 0, ..VERSIONS }, 1, 0),
        (TcbComponent::Snp, TcbComponents { snp: 0x18, ..VERSIONS }, 0x17, 0x18),
        (TcbComponent::Microcode, TcbComponents { microcode: 0xd4, ..VERSIONS }, 0xd5, 0xd4),
    ];
    let reports = [
        signed_report(0x19, 0x01, [4, 1, 0, 0, 0, 0, 0x17, 0xd5], chip()),
        signed_report(0x19, 0x11, [4, 1, 0, 0, 0, 0, 0x17, 0xd5], chip()),
        signed_report(0x1a, 0x02, [0, 4, 1, 0x17, 0, 0, 0, 0xd5], chip()),
    ];
    for report in reports {
        for (component, endorsed_versions, reported, endorsed) in cases {
            let vcek = chip_certificate(endorsed_versions, &chip());
            assert_eq!(
                verify_attestation(&report, &vcek, ChainVerification::Skip),
                Err(VerificationError::TcbMismatch(TcbError::Component { component, reported, endorsed }))
            );
        }
    }
    // A report that claims less than its certificate endorses is refused too.
    let lower = signed_report(0x19, 0x01, [3, 1, 0, 0, 0, 0, 0x17, 0xd5], chip());
    let vcek = chip_certificate(VERSIONS, &chip());
    assert_eq!(
        verify_attestation(&lower, &vcek, ChainVerification::Skip),
        Err(VerificationError::TcbMismatch(TcbError::Component {
            component: TcbComponent::Bootloader,
            reported: 3,
            endorsed: 4
        }))
    );
}

#[test]
fn a_differing_chip_is_a_mismatch() {
    let report = signed_report(0x19, 0x01, [4, 1, 0, 0, 0, 0, 0x17, 0xd5], chip());
    let mut other = chip();
    other[10] ^= 1;
    let vcek = chip_certificate(VERSIONS, &other);
    assert_eq!(
        verify_attestation(&report, &vcek, ChainVerification::Skip),
        Err(VerificationError::TcbMismatch(TcbError::ChipId))
    );
    // A short identifier stands for the front of the report's; the rest is zero.
    let mut short = [0u8; 64];
    short[..8].copy_from_slice(&[9, 8, 7, 6, 5, 4, 3, 2]);
    let report = signed_report(0x1a, 0x02, [0, 4, 1, 0x17, 0, 0, 0, 0xd5], short);
    let vcek = chip_certificate(VERSIONS, &short[..8]);
    assert_eq!(verify_attestation(&report, &vcek, ChainVerification::Skip), Ok(()));
    let report = signed_report(0x1a, 0x02, [0, 4, 1, 0x17, 0, 0, 0, 0xd5], chip());
    let vcek = chip_certificate(VERSIONS, &chip()[..8]);
    assert_eq!(
        verify_attestation(&report, &vcek, ChainVerification::Skip),
        Err(VerificationError::TcbMismatch(TcbError::ChipId))
    );
    assert!(check_chip_id(&[], &[0; 64]));
    assert!(!check_chip_id(&[0; 65], &[0; 64]));
    assert!(check_chip_id(&[1, 2], &[1, 2, 0, 0]));
    assert!(!check_chip_id(&[1, 2], &[1, 2, 0, 1]));
    assert!(!check_chip_id(&[1, 3], &[1, 2, 0, 0]));
}

#[test]
fn component_versions_are_read_in_their_shortest_form_only() {
    assert_eq!(read_version(&[0x02, 0x01, 0x00]), Some(0));
    assert_eq!(read_version(&[0x02, 0x01, 0x7f]), Some(0x7f));
    assert_eq!(read_version(&[0x02, 0x02, 0x00, 0x80]), Some(0x80));
    assert_eq!(read_version(&[0x02, 0x02, 0x00, 0xff]), Some(0xff));
    assert_eq!(read_version(&[0x02, 0x01, 0x80]), None);
    assert_eq!(read_version(&[0x02, 0x02, 0x00, 0x7f]), None);
    assert_eq!(read_version(&[0x02, 0x02, 0x01, 0x00]), None);
    assert_eq!(read_version(&[0x02, 0x00]), None);
    assert_eq!(read_version(&[0x02, 0x01, 0x05, 0x00]), None);
    assert_eq!(read_version(&[0x04, 0x01, 0x05]), None);
    assert_eq!(read_version(&[]), None);
    let vcek = Certificate::parse(&chip_certificate(VERSIONS, &chip())).unwrap();
    assert_eq!(read_endorsed_tcb(&vcek), Some(VERSIONS));
}
