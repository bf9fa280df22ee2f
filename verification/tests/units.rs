//! Tests of the parts on values made by hand.
use tee_attestation_verification_lib::certificate::{Certificate, CertificateError};
use tee_attestation_verification_lib::chain::{ChainError, ChainLink};
use tee_attestation_verification_lib::der::{
    copy_range, is_zero_range, join, read_element, read_within, same_bytes, Element,
};
use tee_attestation_verification_lib::generation::{ProcessorGeneration, UnsupportedProcessorError};
use tee_attestation_verification_lib::keys::rsa_key;
use tee_attestation_verification_lib::messages::{describe, describe_parse};
use tee_attestation_verification_lib::names::common_name;
use tee_attestation_verification_lib::report::{
    AttestationReport, ParseError, TcbComponents, TcbVersion, REPORT_LEN, SIGNED_LEN,
};
use tee_attestation_verification_lib::sev_verification::SevVerificationResult;
use tee_attestation_verification_lib::time::{parse_civil_time, parse_seconds, CivilTime};
use tee_attestation_verification_lib::verify::{
    AcquisitionError, ChainFailure, SignatureError, TcbComponent, TcbError, VerificationError,
};

#[test]
fn generations_by_family_and_model() {
    let milan = Ok(ProcessorGeneration::Milan);
    let genoa = Ok(ProcessorGeneration::Genoa);
    let turin = Ok(ProcessorGeneration::Turin);
    assert_eq!(ProcessorGeneration::from_family_and_model(0x19, 0x00), milan);
    assert_eq!(ProcessorGeneration::from_family_and_model(0x19, 0x0f), milan);
    assert_eq!(ProcessorGeneration::from_family_and_model(0x19, 0x10), genoa);
    assert_eq!(ProcessorGeneration::from_family_and_model(0x19, 0x1f), genoa);
    assert_eq!(ProcessorGeneration::from_family_and_model(0x19, 0xa0), genoa);
    assert_eq!(ProcessorGeneration::from_family_and_model(0x19, 0xaf), genoa);
    assert_eq!(ProcessorGeneration::from_family_and_model(0x1a, 0x00), turin);
    assert_eq!(ProcessorGeneration::from_family_and_model(0x1a, 0x11), turin);
    for (family, model) in [(0x19, 0x20), (0x19, 0x9f), (0x19, 0xb0), (0x1a, 0x12), (0x18, 0), (0x1b, 0), (0, 0), (0xff, 0xff)] {
        assert_eq!(
            ProcessorGeneration::from_family_and_model(family, model),
            Err(UnsupportedProcessorError { family, model })
        );
    }
    assert_eq!(ProcessorGeneration::Milan.name(), "Milan");
    assert_eq!(ProcessorGeneration::Genoa.name(), "Genoa");
    assert_eq!(ProcessorGeneration::Turin.name(), "Turin");
}

fn blob(version: u32) -> Vec<u8> {
    let mut bytes: Vec<u8> = (0..REPORT_LEN).map(|i| (i % 251) as u8).collect();
    bytes[..4].copy_from_slice(&version.to_le_bytes());
    bytes
}

#[test]
fn a_report_is_decoded_field_by_field() {
    let bytes = blob(3);
    let report = AttestationReport::parse(&bytes).unwrap();
    assert_eq!(report.version, 3);
    assert_eq!(report.guest_svn, u32::from_le_bytes([4, 5, 6, 7]));
    assert_eq!(report.policy, u64::from_le_bytes([8, 9, 10, 11, 12, 13, 14, 15]));
    assert_eq!(report.family_id.to_vec(), bytes[0x10..0x20].to_vec());
    assert_eq!(report.image_id.to_vec(), bytes[0x20..0x30].to_vec());
    assert_eq!(report.vmpl, u32::from_le_bytes([0x30, 0x31, 0x32, 0x33]));
    assert_eq!(report.signature_algorithm, u32::from_le_bytes([0x34, 0x35, 0x36, 0x37]));
    assert_eq!(report.current_tcb.raw.to_vec(), bytes[0x38..0x40].to_vec());
    assert_eq!(report.platform_info, u64::from_le_bytes([0x40, 0x41, 0x42, 0x43, 0x44, 0x45, 0x46, 0x47]));
    assert_eq!(report.key_info, u32::from_le_bytes([0x48, 0x49, 0x4a, 0x4b]));
    assert_eq!(report.reserved_a.to_vec(), bytes[0x4c..0x50].to_vec());
    assert_eq!(report.report_data.to_vec(), bytes[0x50..0x90].to_vec());
    assert_eq!(report.measurement.to_vec(), bytes[0x90..0xc0].to_vec());
    assert_eq!(report.host_data.to_vec(), bytes[0xc0..0xe0].to_vec());
    assert_eq!(report.id_key_digest.to_vec(), bytes[0xe0..0x110].to_vec());
    assert_eq!(report.author_key_digest.to_vec(), bytes[0x110..0x140].to_vec());
    assert_eq!(report.report_id.to_vec(), bytes[0x140..0x160].to_vec());
    assert_eq!(report.report_id_ma.to_vec(), bytes[0x160..0x180].to_vec());
    assert_eq!(report.reported_tcb.raw.to_vec(), bytes[0x180..0x188].to_vec());
    assert_eq!(report.cpuid_fam_id, bytes[0x188]);
    assert_eq!(report.cpuid_mod_id, bytes[0x189]);
    assert_eq!(report.cpuid_step_id, bytes[0x18a]);
    assert_eq!(report.reserved_b.to_vec(), bytes[0x18b..0x1a0].to_vec());
    assert_eq!(report.chip_id.to_vec(), bytes[0x1a0..0x1e0].to_vec());
    assert_eq!(report.committed_tcb.raw.to_vec(), bytes[0x1e0..0x1e8].to_vec());
    assert_eq!(
        [report.current_build, report.current_minor, report.current_major, report.reserved_c].to_vec(),
        bytes[0x1e8..0x1ec].to_vec()
    );
    assert_eq!(
        [report.committed_build, report.committed_minor, report.committed_major, report.reserved_d].to_vec(),
        bytes[0x1ec..0x1f0].to_vec()
    );
    assert_eq!(report.launch_tcb.raw.to_vec(), bytes[0x1f0..0x1f8].to_vec());
    assert_eq!(report.reserved_e.to_vec(), bytes[0x1f8..0x2a0].to_vec());
    let mut r = bytes[0x2a0..0x2e8].to_vec();
    r.reverse();
    let mut s = bytes[0x2e8..0x330].to_vec();
    s.reverse();
    assert_eq!(report.signature.r.to_vec(), r);
    assert_eq!(report.signature.s.to_vec(), s);
    assert_eq!(report.signature.reserved.to_vec(), bytes[0x330..].to_vec());
    assert_eq!(report.to_bytes(), bytes);
    assert_eq!(report.signed_bytes(), bytes[..SIGNED_LEN].to_vec());
}

#[test]
fn a_blob_of_another_length_is_not_decoded() {
    let bytes = blob(2);
    for kept in 0..REPORT_LEN {
        assert_eq!(AttestationReport::parse(&bytes[..kept]), Err(ParseError::TruncatedInput));
    }
    let mut longer = bytes.clone();
    longer.push(0);
    assert_eq!(AttestationReport::parse(&longer), Err(ParseError::ExcessInput));
    assert!(AttestationReport::parse(&bytes).is_ok());
    // Length is judged before the version.
    assert_eq!(AttestationReport::parse(&blob(9)[..100]), Err(ParseError::TruncatedInput));
}

#[test]
fn only_known_versions_are_decoded() {
    for version in [2u32, 3, 4, 5] {
        assert_eq!(AttestationReport::parse(&blob(version)).unwrap().version, version);
    }
    for version in [0u32, 1, 6, 0x100, 0x0200_0000, u32::MAX] {
        assert_eq!(
            AttestationReport::parse(&blob(version)),
            Err(ParseError::UnsupportedVersion(version))
        );
    }
}

#[test]
fn tcb_components_by_generation() {
    let tcb = TcbVersion { raw: [1, 2, 3, 4, 5, 6, 7, 8] };
    let legacy = TcbComponents { bootloader: 1, tee: 2, snp: 7, microcode: 8 };
    assert_eq!(tcb.components(ProcessorGeneration::Milan), legacy);
    assert_eq!(tcb.components(ProcessorGeneration::Genoa), legacy);
    assert_eq!(
        tcb.components(ProcessorGeneration::Turin),
        TcbComponents { bootloader: 2, tee: 3, snp: 4, microcode: 8 }
    );
}

fn civil(year: u16, month: u8, day: u8, hour: u8, minute: u8, second: u8) -> CivilTime {
    CivilTime { year, month, day, hour, minute, second }
}

#[test]
fn seconds_since_1970() {
    assert_eq!(civil(1970, 1, 1, 0, 0, 0).to_unix_seconds(), Some(0));
    assert_eq!(civil(1970, 1, 1, 0, 0, 1).to_unix_seconds(), Some(1));
    assert_eq!(civil(1970, 12, 31, 23, 59, 59).to_unix_seconds(), Some(31_535_999));
    assert_eq!(civil(1972, 2, 29, 0, 0, 0).to_unix_seconds(), Some(68_169_600));
    assert_eq!(civil(2000, 2, 29, 12, 0, 0).to_unix_seconds(), Some(951_825_600));
    assert_eq!(civil(2000, 3, 1, 0, 0, 0).to_unix_seconds(), Some(951_868_800));
    assert_eq!(civil(2001, 9, 9, 1, 46, 40).to_unix_seconds(), Some(1_000_000_000));
    assert_eq!(civil(2038, 1, 19, 3, 14, 8).to_unix_seconds(), Some(2_147_483_648));
    assert_eq!(civil(2100, 3, 1, 0, 0, 0).to_unix_seconds(), Some(4_107_542_400));
    assert_eq!(civil(9999, 12, 31, 23, 59, 59).to_unix_seconds(), Some(253_402_300_799));
}

#[test]
fn times_that_do_not_exist() {
    for t in [
        civil(1969, 12, 31, 23, 59, 59),
        civil(10000, 1, 1, 0, 0, 0),
        civil(2023, 0, 1, 0, 0, 0),
        civil(2023, 13, 1, 0, 0, 0),
        civil(2023, 1, 0, 0, 0, 0),
        civil(2023, 1, 32, 0, 0, 0),
        civil(2023, 4, 31, 0, 0, 0),
        civil(2023, 2, 29, 0, 0, 0),
        civil(2100, 2, 29, 0, 0, 0),
        civil(2024, 2, 30, 0, 0, 0),
        civil(2023, 1, 1, 24, 0, 0),
        civil(2023, 1, 1, 0, 60, 0),
        civil(2023, 1, 1, 0, 0, 60),
    ] {
        assert_eq!(t.to_unix_seconds(), None, "{:?}", t);
    }
    assert!(civil(2024, 2, 29, 0, 0, 0).to_unix_seconds().is_some());
    assert!(civil(2000, 2, 29, 0, 0, 0).to_unix_seconds().is_some());
}

#[test]
fn times_as_certificates_write_them() {
    assert_eq!(parse_civil_time(0x17, b"201022172305Z"), Some(civil(2020, 10, 22, 17, 23, 5)));
    assert_eq!(parse_civil_time(0x17, b"451022172305Z"), Some(civil(2045, 10, 22, 17, 23, 5)));
    assert_eq!(parse_civil_time(0x17, b"491231235959Z"), Some(civil(2049, 12, 31, 23, 59, 59)));
    assert_eq!(parse_civil_time(0x17, b"500101000000Z"), Some(civil(1950, 1, 1, 0, 0, 0)));
    assert_eq!(parse_civil_time(0x18, b"20500101000000Z"), Some(civil(2050, 1, 1, 0, 0, 0)));
    assert_eq!(parse_seconds(0x17, b"201022172305Z"), Some(1603387385));
    assert_eq!(parse_seconds(0x18, b"20201022172305Z"), Some(1603387385));
    assert_eq!(parse_seconds(0x17, b"700101000000Z"), Some(0));
    // Before 1970.
    assert_eq!(parse_seconds(0x17, b"691231235959Z"), None);
    assert_eq!(parse_seconds(0x18, b"19691231235959Z"), None);
    for (tag, text) in [
        (0x17u8, &b"2010221723Z"[..]),
        (0x17, b"201022172305z"),
        (0x17, b"201022172305"),
        (0x17, b"20102217230 Z"),
        (0x17, b"2010221723:5Z"),
        (0x17, b"201022172305+0000"),
        (0x17, b"20201022172305Z"),
        (0x18, b"201022172305Z"),
        (0x18, b"20201022172305.5Z"),
        (0x18, b"2020102217230/Z"),
        (0x16, b"201022172305Z"),
        (0x17, b""),
    ] {
        assert_eq!(parse_civil_time(tag, text), None);
        assert_eq!(parse_seconds(tag, text), None);
    }
    assert_eq!(parse_seconds(0x17, b"230229000000Z"), None);
    assert_eq!(parse_seconds(0x17, b"231301000000Z"), None);
}

#[test]
fn elements_are_read_with_their_shortest_length_only() {
    assert_eq!(read_element(&[0x04, 0x00], 0), Some(Element { tag: 0x04, start: 2, end: 2 }));
    assert_eq!(read_element(&[0x04, 0x02, 9, 9, 7], 0), Some(Element { tag: 0x04, start: 2, end: 4 }));
    assert_eq!(read_element(&[7, 0x04, 0x02, 9, 9], 1), Some(Element { tag: 0x04, start: 3, end: 5 }));
    let mut long = vec![0x30, 0x81, 0x80];
    long.extend_from_slice(&[0u8; 0x80]);
    assert_eq!(read_element(&long, 0), Some(Element { tag: 0x30, start: 3, end: 0x83 }));
    let mut longer = vec![0x30, 0x82, 0x01, 0x00];
    longer.extend_from_slice(&[0u8; 0x100]);
    assert_eq!(read_element(&longer, 0), Some(Element { tag: 0x30, start: 4, end: 0x104 }));
    // Cut short, empty, or past the end.
    assert_eq!(read_element(&[], 0), None);
    assert_eq!(read_element(&[0x04], 0), None);
    assert_eq!(read_element(&[0x04, 0x02, 9], 0), None);
    assert_eq!(read_element(&[0x04, 0x00], 2), None);
    assert_eq!(read_element(&[0x04, 0x00], usize::MAX), None);
    assert_eq!(read_element(&long[..0x82], 0), None);
    // Indefinite, padded, or longer than needed lengths.
    assert_eq!(read_element(&[0x30, 0x80, 0, 0], 0), None);
    assert_eq!(read_element(&[0x04, 0x81, 0x01, 9], 0), None);
    assert_eq!(read_element(&[0x04, 0x81, 0x7f], 0), None);
    assert_eq!(read_element(&[0x04, 0x82, 0x00, 0x80], 0), None);
    assert_eq!(read_element(&[0x04, 0x85, 1, 0, 0, 0, 0], 0), None);
    assert_eq!(read_element(&[0x04, 0x84, 0xff, 0xff, 0xff, 0xff], 0), None);
    assert_eq!(read_element(&[0x04, 0xff], 0), None);
    // Identifiers on more than one octet.
    assert_eq!(read_element(&[0x1f, 0x01, 0x00], 0), None);
    assert_eq!(read_element(&[0xbf, 0x01, 0x00], 0), None);
    assert_eq!(read_within(&[0x04, 0x02, 9, 9, 7], 0, 0x04, 4), Some(Element { tag: 0x04, start: 2, end: 4 }));
    assert_eq!(read_within(&[0x04, 0x02, 9, 9, 7], 0, 0x04, 3), None);
    assert_eq!(read_within(&[0x04, 0x02, 9, 9, 7], 0, 0x05, 4), None);
}

#[test]
fn byte_string_helpers() {
    assert_eq!(copy_range(&[1, 2, 3, 4], 1, 3), vec![2, 3]);
    assert_eq!(copy_range(&[1, 2, 3, 4], 2, 2), Vec::<u8>::new());
    assert_eq!(join(&[1, 2], &[3]), vec![1, 2, 3]);
    assert_eq!(join(&[], &[]), Vec::<u8>::new());
    assert!(same_bytes(&[1, 2], &[1, 2]));
    assert!(!same_bytes(&[1, 2], &[1, 3]));
    assert!(!same_bytes(&[1, 2], &[1, 2, 0]));
    assert!(same_bytes(&[], &[]));
    assert!(is_zero_range(&[1, 0, 0, 2], 1, 3));
    assert!(!is_zero_range(&[1, 0, 0, 2], 1, 4));
    assert!(!is_zero_range(&[1, 0, 0, 2], 0, 1));
    assert!(is_zero_range(&[1, 0, 0, 2], 3, 3));
}

fn tlv(tag: u8, content: &[u8]) -> Vec<u8> {
    let mut out = vec![tag];
    let n = content.len();
    if n < 0x80 {
        out.push(n as u8);
    } else if n < 0x100 {
        out.extend_from_slice(&[0x81, n as u8]);
    } else {
        out.extend_from_slice(&[0x82, (n >> 8) as u8, n as u8]);
    }
    out.extend_from_slice(content);
    out
}

fn seq(parts: &[Vec<u8>]) -> Vec<u8> {
    tlv(0x30, &parts.concat())
}

struct Parts {
    version: Vec<u8>,
    inner_algorithm: Vec<u8>,
    outer_algorithm: Vec<u8>,
    validity: Vec<u8>,
    key: Vec<u8>,
    extensions: Option<Vec<u8>>,
    signature: Vec<u8>,
}

fn rsa_key_bits() -> Vec<u8> {
    seq(&[tlv(0x02, &[0x00, 0xc1, 0x05]), tlv(0x02, &[0x01, 0x00, 0x01])])
}

fn parts() -> Parts {
    let algorithm = seq(&[tlv(0x06, &[0x2a, 0x86, 0x48, 0x86, 0xf7, 0x0d, 0x01, 0x01, 0x0a])]);
    Parts {
        version: tlv(0xa0, &tlv(0x02, &[2])),
        inner_algorithm: algorithm.clone(),
        outer_algorithm: algorithm,
        validity: seq(&[tlv(0x17, b"230101000000Z"), tlv(0x17, b"330101000000Z")]),
        key: seq(&[
            seq(&[tlv(0x06, &[0x2a, 0x86, 0x48, 0x86, 0xf7, 0x0d, 0x01, 0x01, 0x01]), tlv(0x05, &[])]),
            tlv(0x03, &[&[0u8][..], &rsa_key_bits()].concat()),
        ]),
        extensions: Some(tlv(
            0xa3,
            &seq(&[
                seq(&[tlv(0x06, &[0x55, 0x1d, 0x0f]), tlv(0x01, &[0xff]), tlv(0x04, &[3, 2, 1, 6])]),
                seq(&[tlv(0x06, &[0x55, 0x1d, 0x0e]), tlv(0x04, &[4, 1, 7])]),
            ]),
        )),
        signature: tlv(0x03, &[0, 0xaa, 0xbb]),
    }
}

fn name(common_name: &[u8]) -> Vec<u8> {
    seq(&[
        tlv(0x31, &seq(&[tlv(0x06, &[0x55, 0x04, 0x0a]), tlv(0x0c, b"Example")])),
        tlv(0x31, &seq(&[tlv(0x06, &[0x55, 0x04, 0x03]), tlv(0x0c, common_name)])),
    ])
}

fn body(p: &Parts) -> Vec<u8> {
    let mut body = vec![
        p.version.clone(),
        tlv(0x02, &[0x01, 0x02]),
        p.inner_algorithm.clone(),
        name(b"Issuer"),
        p.validity.clone(),
        name(b"Subject"),
        p.key.clone(),
    ];
    if let Some(e) = &p.extensions {
        body.push(e.clone());
    }
    seq(&body)
}

fn assemble(p: &Parts) -> Vec<u8> {
    seq(&[body(p), p.outer_algorithm.clone(), p.signature.clone()])
}

#[test]
fn a_certificate_is_read_field_by_field() {
    let p = parts();
    let der = assemble(&p);
    let c = Certificate::parse(&der).unwrap();
    assert_eq!(c.tbs, body(&p));
    assert_eq!(c.serial, vec![0x01, 0x02]);
    assert_eq!(c.signature_algorithm, vec![0x2a, 0x86, 0x48, 0x86, 0xf7, 0x0d, 0x01, 0x01, 0x0a]);
    assert_eq!(c.signature, vec![0xaa, 0xbb]);
    assert_eq!(c.issuer, name(b"Issuer"));
    assert_eq!(c.subject, name(b"Subject"));
    assert_eq!(c.not_before, 1672531200);
    assert_eq!(c.not_after, 1988150400);
    assert_eq!(c.key_algorithm, vec![0x2a, 0x86, 0x48, 0x86, 0xf7, 0x0d, 0x01, 0x01, 0x01]);
    assert_eq!(c.key_parameters, vec![0x05, 0x00]);
    assert_eq!(c.public_key, rsa_key_bits());
    assert_eq!(c.extensions.len(), 2);
    assert_eq!(c.extensions[0].id, vec![0x55, 0x1d, 0x0f]);
    assert!(c.extensions[0].critical);
    assert_eq!(c.extensions[0].value, vec![3, 2, 1, 6]);
    assert_eq!(c.extensions[1].id, vec![0x55, 0x1d, 0x0e]);
    assert!(!c.extensions[1].critical);
    assert_eq!(c.extensions[1].value, vec![4, 1, 7]);
    let key = rsa_key(&c).unwrap();
    assert_eq!(key.modulus, vec![0x00, 0xc1, 0x05]);
    assert_eq!(key.exponent, vec![0x01, 0x00, 0x01]);
    assert_eq!(common_name(&c.subject), Some(b"Subject".to_vec()));
    assert_eq!(common_name(&c.issuer), Some(b"Issuer".to_vec()));
    let mut bare = parts();
    bare.extensions = None;
    assert_eq!(Certificate::parse(&assemble(&bare)).unwrap().extensions.len(), 0);
}

#[test]
fn each_part_of_a_certificate_is_held_to_its_shape() {
    let good = assemble(&parts());
    assert!(Certificate::parse(&good).is_ok());
    let mut trailing = good.clone();
    trailing.push(0);
    assert_eq!(Certificate::parse(&trailing), Err(CertificateError::Frame));
    assert_eq!(Certificate::parse(&[]), Err(CertificateError::Frame));
    assert_eq!(Certificate::parse(&good[4..]), Err(CertificateError::Frame));

    let mut p = parts();
    p.signature = tlv(0x03, &[1, 0xaa, 0xbb]);
    assert_eq!(Certificate::parse(&assemble(&p)), Err(CertificateError::Frame));
    let mut p = parts();
    p.signature = tlv(0x03, &[]);
    assert_eq!(Certificate::parse(&assemble(&p)), Err(CertificateError::Frame));
    let mut p = parts();
    p.signature = tlv(0x04, &[0, 0xaa]);
    assert_eq!(Certificate::parse(&assemble(&p)), Err(CertificateError::Frame));

    let mut p = parts();
    p.version = tlv(0xa0, &tlv(0x02, &[1]));
    assert_eq!(Certificate::parse(&assemble(&p)), Err(CertificateError::Body));
    let mut p = parts();
    p.version = Vec::new();
    assert_eq!(Certificate::parse(&assemble(&p)), Err(CertificateError::Body));
    let mut p = parts();
    p.key = tlv(0x31, &[]);
    assert_eq!(Certificate::parse(&assemble(&p)), Err(CertificateError::Body));

    let mut p = parts();
    p.validity = seq(&[tlv(0x17, b"230101000000Z")]);
    assert_eq!(Certificate::parse(&assemble(&p)), Err(CertificateError::Validity));
    let mut p = parts();
    p.validity = seq(&[tlv(0x17, b"230101000000Z"), tlv(0x17, b"330132000000Z")]);
    assert_eq!(Certificate::parse(&assemble(&p)), Err(CertificateError::Validity));
    let mut p = parts();
    p.validity =
        seq(&[tlv(0x17, b"230101000000Z"), tlv(0x17, b"330101000000Z"), tlv(0x17, b"330101000000Z")]);
    assert_eq!(Certificate::parse(&assemble(&p)), Err(CertificateError::Validity));

    let mut p = parts();
    p.key = seq(&[seq(&[tlv(0x05, &[])]), tlv(0x03, &[0, 1])]);
    assert_eq!(Certificate::parse(&assemble(&p)), Err(CertificateError::PublicKey));
    let mut p = parts();
    p.key = seq(&[seq(&[tlv(0x06, &[0x2a])]), tlv(0x03, &[7, 1])]);
    assert_eq!(Certificate::parse(&assemble(&p)), Err(CertificateError::PublicKey));
    let mut p = parts();
    p.key = seq(&[seq(&[tlv(0x06, &[0x2a])]), tlv(0x03, &[0, 1]), tlv(0x05, &[])]);
    assert_eq!(Certificate::parse(&assemble(&p)), Err(CertificateError::PublicKey));

    let mut p = parts();
    p.outer_algorithm = seq(&[tlv(0x06, &[0x2a, 0x86, 0x48, 0x86, 0xf7, 0x0d, 0x01, 0x01, 0x0b])]);
    assert_eq!(Certificate::parse(&assemble(&p)), Err(CertificateError::Algorithm));
    let mut p = parts();
    p.outer_algorithm = seq(&[tlv(0x05, &[])]);
    p.inner_algorithm = p.outer_algorithm.clone();
    assert_eq!(Certificate::parse(&assemble(&p)), Err(CertificateError::Algorithm));

    let mut p = parts();
    p.extensions = Some(tlv(0xa3, &seq(&[seq(&[tlv(0x06, &[0x55]), tlv(0x01, &[1]), tlv(0x04, &[])])])));
    assert_eq!(Certificate::parse(&assemble(&p)), Err(CertificateError::Extensions));
    let mut p = parts();
    p.extensions = Some(tlv(0xa3, &seq(&[seq(&[tlv(0x06, &[0x55])])])));
    assert_eq!(Certificate::parse(&assemble(&p)), Err(CertificateError::Extensions));
    let mut p = parts();
    p.extensions = Some(tlv(0xa3, &seq(&[seq(&[tlv(0x06, &[0x55]), tlv(0x04, &[]), tlv(0x04, &[])])])));
    assert_eq!(Certificate::parse(&assemble(&p)), Err(CertificateError::Extensions));
    let mut p = parts();
    p.extensions = Some(tlv(0xa1, &[0]));
    assert_eq!(Certificate::parse(&assemble(&p)), Err(CertificateError::Extensions));
    let mut p = parts();
    p.extensions = Some(tlv(0xa3, &seq(&[])));
    assert_eq!(Certificate::parse(&assemble(&p)).unwrap().extensions.len(), 0);
}

#[test]
fn keys_and_names_that_are_not_read() {
    let mut p = parts();
    p.key = seq(&[
        seq(&[tlv(0x06, &[0x2a, 0x86, 0x48, 0x86, 0xf7, 0x0d, 0x01, 0x01, 0x01]), tlv(0x05, &[])]),
        tlv(0x03, &[&[0u8][..], &seq(&[tlv(0x02, &[0xc1, 0x05]), tlv(0x02, &[0x03])])].concat()),
    ]);
    // A modulus written as a negative number.
    assert!(rsa_key(&Certificate::parse(&assemble(&p)).unwrap()).is_none());
    p.key = seq(&[
        seq(&[tlv(0x06, &[0x2a, 0x86, 0x48, 0x86, 0xf7, 0x0d, 0x01, 0x01, 0x01]), tlv(0x05, &[])]),
        tlv(0x03, &[&[0u8][..], &seq(&[tlv(0x02, &[0x05])])].concat()),
    ]);
    assert!(rsa_key(&Certificate::parse(&assemble(&p)).unwrap()).is_none());
    p.key = seq(&[
        seq(&[tlv(0x06, &[0x2a, 0x86, 0x48, 0x86, 0xf7, 0x0d, 0x01, 0x01, 0x02]), tlv(0x05, &[])]),
        tlv(0x03, &[&[0u8][..], &rsa_key_bits()].concat()),
    ]);
    assert!(rsa_key(&Certificate::parse(&assemble(&p)).unwrap()).is_none());
    assert_eq!(common_name(&[]), None);
    assert_eq!(common_name(&seq(&[])), None);
    assert_eq!(common_name(&seq(&[tlv(0x31, &seq(&[tlv(0x06, &[0x55, 0x04, 0x0a]), tlv(0x0c, b"x")]))])), None);
    assert_eq!(common_name(&seq(&[tlv(0x30, &[])])), None);
    let mut trailing = name(b"Subject");
    trailing.push(0);
    assert_eq!(common_name(&trailing), None);
}

fn every_error() -> Vec<(VerificationError, usize, &'static str)> {
    let chain = |e| VerificationError::CertificateChainError(ChainFailure::Verification(e));
    let acquisition = |e| VerificationError::CertificateChainError(ChainFailure::Acquisition(e));
    let component = |component| {
        VerificationError::TcbMismatch(TcbError::Component { component, reported: 1, endorsed: 2 })
    };
    vec![
        (
            VerificationError::UnsupportedProcessor(UnsupportedProcessorError { family: 1, model: 2 }),
            0,
            "processor: no supported generation has this CPUID family and model",
        ),
        (acquisition(AcquisitionError::Fetch), 1, "certificate chain: the certificates could not be fetched"),
        (acquisition(AcquisitionError::Absent), 1, "certificate chain: no certificates were supplied"),
        (
            chain(ChainError::BadLink(ChainLink::Root)),
            2,
            "certificate chain: the root key certificate cannot be read",
        ),
        (
            chain(ChainError::BadLink(ChainLink::Intermediate)),
            2,
            "certificate chain: the signing key certificate cannot be read or is not signed by the root key",
        ),
        (
            chain(ChainError::BadLink(ChainLink::Leaf)),
            2,
            "certificate chain: the chip certificate cannot be read or is not signed by the signing key",
        ),
        (chain(ChainError::Expired), 2, "certificate chain: a certificate is outside its validity period"),
        (
            chain(ChainError::GenerationMismatch),
            2,
            "certificate chain: the root key or the names are not those of the processor generation",
        ),
        (
            VerificationError::SignatureInvalid(SignatureError::UnsupportedAlgorithm(7)),
            3,
            "signature: the report names a signature algorithm that is not supported",
        ),
        (
            VerificationError::SignatureInvalid(SignatureError::NoKey),
            3,
            "signature: the chip certificate carries no P-384 key",
        ),
        (
            VerificationError::SignatureInvalid(SignatureError::Malformed),
            3,
            "signature: a component of the signature does not fit 48 octets",
        ),
        (
            VerificationError::SignatureInvalid(SignatureError::Rejected),
            3,
            "signature: the signature does not verify under the chip's key",
        ),
        (
            VerificationError::TcbMismatch(TcbError::Missing),
            4,
            "TCB: the chip certificate lacks a component version or the chip identifier",
        ),
        (component(TcbComponent::Bootloader), 4, "TCB: the bootloader version is not the chip certificate's"),
        (component(TcbComponent::Tee), 4, "TCB: the TEE version is not the chip certificate's"),
        (component(TcbComponent::Snp), 4, "TCB: the SNP version is not the chip certificate's"),
        (component(TcbComponent::Microcode), 4, "TCB: the microcode version is not the chip certificate's"),
        (
            VerificationError::TcbMismatch(TcbError::ChipId),
            4,
            "TCB: the chip identifier is not the chip certificate's",
        ),
    ]
}

#[test]
fn every_error_has_its_message() {
    for (error, _, message) in every_error() {
        assert_eq!(describe(&error), message);
    }
    assert_eq!(describe_parse(&ParseError::TruncatedInput), "report: fewer bytes than a report has");
    assert_eq!(describe_parse(&ParseError::ExcessInput), "report: more bytes than a report has");
    assert_eq!(describe_parse(&ParseError::UnsupportedVersion(9)), "report: the format version is not supported");
}

#[test]
fn a_summary_sets_the_flags_of_the_stages_before_the_failure() {
    for (error, stage, message) in every_error() {
        let r = SevVerificationResult::from_outcome(Some(ProcessorGeneration::Genoa), &Err(error));
        assert!(!r.is_valid);
        assert_eq!(r.details.processor_identified, stage > 0);
        assert_eq!(r.details.certificates_fetched, stage > 1);
        assert_eq!(r.details.certificate_chain_valid, stage > 2);
        assert_eq!(r.details.signature_valid, stage > 3);
        assert!(!r.details.tcb_valid);
        assert_eq!(r.details.processor_model, if stage > 0 { Some("Genoa".to_string()) } else { None });
        assert_eq!(r.errors, vec![message.to_string()]);
        // Without a generation no flag is set.
        let r = SevVerificationResult::from_outcome(None, &Err(error));
        assert!(!r.is_valid);
        assert!(!r.details.processor_identified);
        assert!(!r.details.certificates_fetched);
        assert!(!r.details.certificate_chain_valid);
        assert!(!r.details.signature_valid);
        assert!(!r.details.tcb_valid);
        assert_eq!(r.details.processor_model, None);
        assert_eq!(r.errors, vec![message.to_string()]);
    }
}

#[test]
fn a_summary_is_valid_only_when_nothing_failed() {
    for generation in [ProcessorGeneration::Milan, ProcessorGeneration::Genoa, ProcessorGeneration::Turin] {
        let r = SevVerificationResult::from_outcome(Some(generation), &Ok(()));
        assert!(r.is_valid);
        assert!(r.details.processor_identified);
        assert!(r.details.certificates_fetched);
        assert!(r.details.certificate_chain_valid);
        assert!(r.details.signature_valid);
        assert!(r.details.tcb_valid);
        assert_eq!(r.details.processor_model, Some(generation.name()));
        assert!(r.errors.is_empty());
    }
    let r = SevVerificationResult::from_outcome(None, &Ok(()));
    assert!(!r.is_valid);
    assert!(!r.details.processor_identified);
    assert_eq!(r.errors, vec!["processor: no supported generation has this CPUID family and model".to_string()]);
    let r = SevVerificationResult::unreadable(&ParseError::UnsupportedVersion(1));
    assert!(!r.is_valid);
    assert!(!r.details.processor_identified);
    assert!(!r.details.tcb_valid);
    assert_eq!(r.details.processor_model, None);
    assert_eq!(r.errors, vec!["report: the format version is not supported".to_string()]);
}
