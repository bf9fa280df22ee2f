//! Verification of AMD SEV-SNP attestation reports.
//!
//! A report is accepted when the processor generation it names is supported,
//! the certificate chain from the pinned AMD root key down to the chip's
//! endorsement key holds, the report's signature verifies under that key, and
//! the firmware versions in the report equal those the key was issued for.
pub mod certificate;
pub mod chain;
pub mod crypto;
pub mod der;
pub mod generation;
pub mod keys;
pub mod messages;
pub mod names;
pub mod report;
pub mod root_certs;
pub mod sev_verification;
pub mod time;
pub mod vcek;
pub mod verify;
