//! What each error says in words.
use crate::chain::{ChainError, ChainLink};
use crate::report::ParseError;
use crate::verify::{
    AcquisitionError, ChainFailure, SignatureError, TcbComponent, TcbError, VerificationError,
};
use vstd::prelude::*;

verus! {

/// The message for a verification error. It starts with the stage that
/// failed.
pub open spec fn message_of(error: VerificationError) -> Seq<char> {
    match error {
        VerificationError::UnsupportedProcessor(_) => "processor: no supported generation has this CPUID family and model"@,
        VerificationError::CertificateChainError(ChainFailure::Acquisition(AcquisitionError::Fetch)) => "certificate chain: the certificates could not be fetched"@,
        VerificationError::CertificateChainError(ChainFailure::Acquisition(AcquisitionError::Absent)) => "certificate chain: no certificates were supplied"@,
        VerificationError::CertificateChainError(ChainFailure::Verification(ChainError::BadLink(ChainLink::Root))) => "certificate chain: the root key certificate cannot be read"@,
        VerificationError::CertificateChainError(ChainFailure::Verification(ChainError::BadLink(ChainLink::Intermediate))) => "certificate chain: the signing key certificate cannot be read or is not signed by the root key"@,
        VerificationError::CertificateChainError(ChainFailure::Verification(ChainError::BadLink(ChainLink::Leaf))) => "certificate chain: the chip certificate cannot be read or is not signed by the signing key"@,
        VerificationError::CertificateChainError(ChainFailure::Verification(ChainError::Expired)) => "certificate chain: a certificate is outside its validity period"@,
        VerificationError::CertificateChainError(ChainFailure::Verification(ChainError::GenerationMismatch)) => "certificate chain: the root key or the names are not those of the processor generation"@,
        VerificationError::SignatureInvalid(SignatureError::UnsupportedAlgorithm(_)) => "signature: the report names a signature algorithm that is not supported"@,
        VerificationError::SignatureInvalid(SignatureError::NoKey) => "signature: the chip certificate carries no P-384 key"@,
        VerificationError::SignatureInvalid(SignatureError::Malformed) => "signature: a component of the signature does not fit 48 octets"@,
        VerificationError::SignatureInvalid(SignatureError::Rejected) => "signature: the signature does not verify under the chip's key"@,
        VerificationError::TcbMismatch(TcbError::Missing) => "TCB: the chip certificate lacks a component version or the chip identifier"@,
        VerificationError::TcbMismatch(TcbError::Component { component: TcbComponent::Bootloader, .. }) => "TCB: the bootloader version is not the chip certificate's"@,
        VerificationError::TcbMismatch(TcbError::Component { component: TcbComponent::Tee, .. }) => "TCB: the TEE version is not the chip certificate's"@,
        VerificationError::TcbMismatch(TcbError::Component { component: TcbComponent::Snp, .. }) => "TCB: the SNP version is not the chip certificate's"@,
        VerificationError::TcbMismatch(TcbError::Component { component: TcbComponent::Microcode, .. }) => "TCB: the microcode version is not the chip certificate's"@,
        VerificationError::TcbMismatch(TcbError::ChipId) => "TCB: the chip identifier is not the chip certificate's"@,
    }
}

/// The message for a report that was not decoded.
pub open spec fn parse_message_of(error: ParseError) -> Seq<char> {
    match error {
        ParseError::TruncatedInput => "report: fewer bytes than a report has"@,
        ParseError::ExcessInput => "report: more bytes than a report has"@,
        ParseError::UnsupportedVersion(_) => "report: the format version is not supported"@,
    }
}

/// Says a verification error in words.
pub fn describe(error: &VerificationError) -> (s: String)
    ensures
        s@ == message_of(*error),
{
    match error {
        VerificationError::UnsupportedProcessor(_) => "processor: no supported generation has this CPUID family and model".to_string(),
        VerificationError::CertificateChainError(ChainFailure::Acquisition(AcquisitionError::Fetch)) => "certificate chain: the certificates could not be fetched".to_string(),
        VerificationError::CertificateChainError(ChainFailure::Acquisition(AcquisitionError::Absent)) => "certificate chain: no certificates were supplied".to_string(),
        VerificationError::CertificateChainError(ChainFailure::Verification(ChainError::BadLink(ChainLink::Root))) => "certificate chain: the root key certificate cannot be read".to_string(),
        VerificationError::CertificateChainError(ChainFailure::Verification(ChainError::BadLink(ChainLink::Intermediate))) => "certificate chain: the signing key certificate cannot be read or is not signed by the root key".to_string(),
        VerificationError::CertificateChainError(ChainFailure::Verification(ChainError::BadLink(ChainLink::Leaf))) => "certificate chain: the chip certificate cannot be read or is not signed by the signing key".to_string(),
        VerificationError::CertificateChainError(ChainFailure::Verification(ChainError::Expired)) => "certificate chain: a certificate is outside its validity period".to_string(),
        VerificationError::CertificateChainError(ChainFailure::Verification(ChainError::GenerationMismatch)) => "certificate chain: the root key or the names are not those of the processor generation".to_string(),
        VerificationError::SignatureInvalid(SignatureError::UnsupportedAlgorithm(_)) => "signature: the report names a signature algorithm that is not supported".to_string(),
        VerificationError::SignatureInvalid(SignatureError::NoKey) => "signature: the chip certificate carries no P-384 key".to_string(),
        VerificationError::SignatureInvalid(SignatureError::Malformed) => "signature: a component of the signature does not fit 48 octets".to_string(),
        VerificationError::SignatureInvalid(SignatureError::Rejected) => "signature: the signature does not verify under the chip's key".to_string(),
        VerificationError::TcbMismatch(TcbError::Missing) => "TCB: the chip certificate lacks a component version or the chip identifier".to_string(),
        VerificationError::TcbMismatch(TcbError::Component { component: TcbComponent::Bootloader, .. }) => "TCB: the bootloader version is not the chip certificate's".to_string(),
        VerificationError::TcbMismatch(TcbError::Component { component: TcbComponent::Tee, .. }) => "TCB: the TEE version is not the chip certificate's".to_string(),
        VerificationError::TcbMismatch(TcbError::Component { component: TcbComponent::Snp, .. }) => "TCB: the SNP version is not the chip certificate's".to_string(),
        VerificationError::TcbMismatch(TcbError::Component { component: TcbComponent::Microcode, .. }) => "TCB: the microcode version is not the chip certificate's".to_string(),
        VerificationError::TcbMismatch(TcbError::ChipId) => "TCB: the chip identifier is not the chip certificate's".to_string(),
    }
}

/// Says in words why a report was not decoded.
pub fn describe_parse(error: &ParseError) -> (s: String)
    ensures
        s@ == parse_message_of(*error),
{
    match error {
        ParseError::TruncatedInput => "report: fewer bytes than a report has".to_string(),
        ParseError::ExcessInput => "report: more bytes than a report has".to_string(),
        ParseError::UnsupportedVersion(_) => "report: the format version is not supported".to_string(),
    }
}

} // verus!
