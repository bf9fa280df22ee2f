//! What a chip's endorsement key certificate says of the chip: the firmware
//! versions the key was issued for, and the chip's identifier.
use crate::certificate::{Certificate, CertificateView, Extension, ExtensionView, TAG_INTEGER};
use crate::der::{element_within, read_within, same_bytes};
use crate::report::TcbComponents;
use vstd::prelude::*;

verus! {

/// Contents of the object identifier 1.3.6.1.4.1.3704.1.3.1 (bootloader).
pub const OID_BOOTLOADER: [u8; 10] = [0x2b, 0x06, 0x01, 0x04, 0x01, 0x9c, 0x78, 0x01, 0x03, 0x01];

/// Contents of the object identifier 1.3.6.1.4.1.3704.1.3.2 (TEE).
pub const OID_TEE: [u8; 10] = [0x2b, 0x06, 0x01, 0x04, 0x01, 0x9c, 0x78, 0x01, 0x03, 0x02];

/// Contents of the object identifier 1.3.6.1.4.1.3704.1.3.3 (SNP).
pub const OID_SNP: [u8; 10] = [0x2b, 0x06, 0x01, 0x04, 0x01, 0x9c, 0x78, 0x01, 0x03, 0x03];

/// Contents of the object identifier 1.3.6.1.4.1.3704.1.3.8 (microcode).
pub const OID_MICROCODE: [u8; 10] = [0x2b, 0x06, 0x01, 0x04, 0x01, 0x9c, 0x78, 0x01, 0x03, 0x08];

/// Contents of the object identifier 1.3.6.1.4.1.3704.1.4 (chip identifier).
pub const OID_CHIP_ID: [u8; 9] = [0x2b, 0x06, 0x01, 0x04, 0x01, 0x9c, 0x78, 0x01, 0x04];

/// The place of the first extension at or after `from` that carries `id`.
pub open spec fn extension_index(extensions: Seq<ExtensionView>, id: Seq<u8>, from: int) -> Option<
    int,
>
    decreases extensions.len() - from,
{
    if from < 0 || from >= extensions.len() {
        None
    } else if extensions[from].id == id {
        Some(from)
    } else {
        extension_index(extensions, id, from + 1)
    }
}

/// The value of the first extension that carries `id`.
pub open spec fn extension_value(c: CertificateView, id: Seq<u8>) -> Option<Seq<u8>> {
    match extension_index(c.extensions, id, 0) {
        Some(i) => Some(c.extensions[i].value),
        None => None,
    }
}

/// The component version that an extension value states: one integer from
/// 0 to 255 in its shortest encoding, and nothing more.
#[verifier::opaque]
pub open spec fn version_of(value: Seq<u8>) -> Option<u8> {
    let e = element_within(value, 0, TAG_INTEGER, value.len() as int);
    if e is Some && e->0.end == value.len() {
        if e->0.end - e->0.start == 1 && value[e->0.start as int] < 0x80 {
            Some(value[e->0.start as int])
        } else if e->0.end - e->0.start == 2 && value[e->0.start as int] == 0 && value[e->0.start
            + 1] >= 0x80 {
            Some(value[e->0.start + 1])
        } else {
            None
        }
    } else {
        None
    }
}

/// The component version that the extension `id` of a certificate states.
pub open spec fn component_of(c: CertificateView, id: Seq<u8>) -> Option<u8> {
    match extension_value(c, id) {
        Some(value) => version_of(value),
        None => None,
    }
}

/// The firmware versions that a certificate endorses: all four components,
/// or nothing.
pub open spec fn endorsed_tcb(c: CertificateView) -> Option<TcbComponents> {
    let bootloader = component_of(c, OID_BOOTLOADER@);
    let tee = component_of(c, OID_TEE@);
    let snp = component_of(c, OID_SNP@);
    let microcode = component_of(c, OID_MICROCODE@);
    if bootloader is Some && tee is Some && snp is Some && microcode is Some {
        Some(
            TcbComponents {
                bootloader: bootloader->0,
                tee: tee->0,
                snp: snp->0,
                microcode: microcode->0,
            },
        )
    } else {
        None
    }
}

/// The chip identifier that a certificate endorses.
pub open spec fn endorsed_chip_id(c: CertificateView) -> Option<Seq<u8>> {
    extension_value(c, OID_CHIP_ID@)
}

/// Finds the first extension that carries `id`.
pub fn find_extension<'a>(certificate: &'a Certificate, id: &[u8]) -> (r: Option<&'a Extension>)
    ensures
        match r {
            Some(e) => extension_index(certificate@.extensions, id@, 0) is Some
                && certificate@.extensions[extension_index(certificate@.extensions, id@, 0)->0]
                == e@,
            None => extension_index(certificate@.extensions, id@, 0) is None,
        },
{
    let ghost views = certificate@.extensions;
    let mut i: usize = 0;
    while i < certificate.extensions.len()
        invariant
            i <= certificate.extensions@.len(),
            views == certificate@.extensions,
            views.len() == certificate.extensions@.len(),
            extension_index(views, id@, 0) == extension_index(views, id@, i as int),
        decreases certificate.extensions@.len() - i,
    {
        assert(views[i as int] == certificate.extensions@[i as int]@);
        if same_bytes(certificate.extensions[i].id.as_slice(), id) {
            return Some(&certificate.extensions[i]);
        }
        i += 1;
    }
    None
}

/// Reads the component version that an extension value states.
pub fn read_version(value: &[u8]) -> (r: Option<u8>)
    ensures
        r == version_of(value@),
{
    reveal(version_of);
    let n = value.len();
    let e = match read_within(value, 0, TAG_INTEGER, n) {
        Some(e) => e,
        None => { return None; },
    };
    if e.end != n {
        return None;
    }
    if e.end - e.start == 1 && value[e.start] < 0x80 {
        Some(value[e.start])
    } else if e.end - e.start == 2 && value[e.start] == 0 && value[e.start + 1] >= 0x80 {
        Some(value[e.start + 1])
    } else {
        None
    }
}

fn read_component(certificate: &Certificate, id: &[u8]) -> (r: Option<u8>)
    ensures
        r == component_of(certificate@, id@),
{
    match find_extension(certificate, id) {
        Some(e) => read_version(e.value.as_slice()),
        None => None,
    }
}

/// Reads the firmware versions that a certificate endorses.
pub fn read_endorsed_tcb(certificate: &Certificate) -> (r: Option<TcbComponents>)
    ensures
        r == endorsed_tcb(certificate@),
{
    let bootloader = match read_component(certificate, OID_BOOTLOADER.as_slice()) {
        Some(v) => v,
        None => { return None; },
    };
    let tee = match read_component(certificate, OID_TEE.as_slice()) {
        Some(v) => v,
        None => { return None; },
    };
    let snp = match read_component(certificate, OID_SNP.as_slice()) {
        Some(v) => v,
        None => { return None; },
    };
    let microcode = match read_component(certificate, OID_MICROCODE.as_slice()) {
        Some(v) => v,
        None => { return None; },
    };
    Some(TcbComponents { bootloader, tee, snp, microcode })
}

/// Reads the chip identifier that a certificate endorses.
pub fn read_endorsed_chip_id(certificate: &Certificate) -> (r: Option<&[u8]>)
    ensures
        match r {
            Some(id) => endorsed_chip_id(certificate@) == Some(id@),
            None => endorsed_chip_id(certificate@) is None,
        },
{
    match find_extension(certificate, OID_CHIP_ID.as_slice()) {
        Some(e) => Some(e.value.as_slice()),
        None => None,
    }
}

} // verus!
