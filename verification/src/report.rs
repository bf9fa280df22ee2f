//! The attestation report: its fields, its fixed wire layout, and the
//! decoder and encoder between the two.
use crate::generation::ProcessorGeneration;
use vstd::bytes::*;
use vstd::prelude::*;
use vstd::slice::slice_subrange;

verus! {

/// Length of a report on the wire.
pub const REPORT_LEN: usize = 1184;

/// Length of the leading part of a report that its signature covers.
pub const SIGNED_LEN: usize = 672;

/// Lowest report format version that is decoded.
pub const MIN_VERSION: u32 = 2;

/// Highest report format version that is decoded.
pub const MAX_VERSION: u32 = 5;

/// Why a blob was not decoded.
#[derive(Clone, Copy, Debug, PartialEq, Eq, Structural)]
pub enum ParseError {
    /// Fewer bytes than the layout needs.
    TruncatedInput,
    /// More bytes than the layout holds.
    ExcessInput,
    /// The version field holds a version that is not decoded.
    UnsupportedVersion(u32),
}

/// The four firmware component versions of a TCB version.
#[derive(Clone, Copy, Debug, PartialEq, Eq, Structural)]
pub struct TcbComponents {
    pub bootloader: u8,
    pub tee: u8,
    pub snp: u8,
    pub microcode: u8,
}

/// A TCB version as the report carries it: eight bytes whose meaning depends
/// on the processor generation.
#[derive(Clone, Copy, Debug, PartialEq, Eq)]
pub struct TcbVersion {
    pub raw: [u8; 8],
}

/// The component versions that eight TCB bytes hold for a generation.
pub open spec fn tcb_components(raw: Seq<u8>, generation: ProcessorGeneration) -> TcbComponents {
    match generation {
        ProcessorGeneration::Turin => TcbComponents {
            bootloader: raw[1],
            tee: raw[2],
            snp: raw[3],
            microcode: raw[7],
        },
        _ => TcbComponents { bootloader: raw[0], tee: raw[1], snp: raw[6], microcode: raw[7] },
    }
}

impl TcbVersion {
    /// Reads the component versions out of the raw bytes, at the positions
    /// that the generation defines.
    pub fn components(&self, generation: ProcessorGeneration) -> (c: TcbComponents)
        ensures
            c == tcb_components(self.raw@, generation),
    {
        match generation {
            ProcessorGeneration::Turin => TcbComponents {
                bootloader: self.raw[1],
                tee: self.raw[2],
                snp: self.raw[3],
                microcode: self.raw[7],
            },
            _ => TcbComponents {
                bootloader: self.raw[0],
                tee: self.raw[1],
                snp: self.raw[6],
                microcode: self.raw[7],
            },
        }
    }
}

/// The report's detached ECDSA signature. `r` and `s` are held big-endian,
/// most significant byte first; on the wire each is stored least significant
/// byte first.
#[derive(Clone, Copy, Debug, PartialEq, Eq)]
pub struct Signature {
    pub r: [u8; 72],
    pub s: [u8; 72],
    pub reserved: [u8; 368],
}

/// A decoded attestation report. Reserved regions are kept as they were read,
/// since the signature covers them.
#[derive(Clone, Copy, Debug, PartialEq, Eq)]
pub struct AttestationReport {
    pub version: u32,
    pub guest_svn: u32,
    pub policy: u64,
    pub family_id: [u8; 16],
    pub image_id: [u8; 16],
    pub vmpl: u32,
    pub signature_algorithm: u32,
    pub current_tcb: TcbVersion,
    pub platform_info: u64,
    pub key_info: u32,
    pub reserved_a: [u8; 4],
    pub report_data: [u8; 64],
    pub measurement: [u8; 48],
    pub host_data: [u8; 32],
    pub id_key_digest: [u8; 48],
    pub author_key_digest: [u8; 48],
    pub report_id: [u8; 32],
    pub report_id_ma: [u8; 32],
    pub reported_tcb: TcbVersion,
    pub cpuid_fam_id: u8,
    pub cpuid_mod_id: u8,
    pub cpuid_step_id: u8,
    pub reserved_b: [u8; 21],
    pub chip_id: [u8; 64],
    pub committed_tcb: TcbVersion,
    pub current_build: u8,
    pub current_minor: u8,
    pub current_major: u8,
    pub reserved_c: u8,
    pub committed_build: u8,
    pub committed_minor: u8,
    pub committed_major: u8,
    pub reserved_d: u8,
    pub launch_tcb: TcbVersion,
    pub reserved_e: [u8; 168],
    pub signature: Signature,
}

/// A sequence with its elements in the opposite order.
pub open spec fn reversed(s: Seq<u8>) -> Seq<u8> {
    Seq::new(s.len(), |i: int| s[s.len() - 1 - i])
}

/// Whether a report format version is decoded.
pub open spec fn version_supported(version: u32) -> bool {
    MIN_VERSION <= version <= MAX_VERSION
}

/// What decoding answers for a blob, as far as the blob's length and version
/// field decide it: `None` where the blob is decoded.
pub open spec fn parse_verdict(bytes: Seq<u8>) -> Option<ParseError> {
    if bytes.len() < REPORT_LEN {
        Some(ParseError::TruncatedInput)
    } else if bytes.len() > REPORT_LEN {
        Some(ParseError::ExcessInput)
    } else if !version_supported(spec_u32_from_le_bytes(bytes.subrange(0, 4))) {
        Some(ParseError::UnsupportedVersion(spec_u32_from_le_bytes(bytes.subrange(0, 4))))
    } else {
        None
    }
}

/// The report that a blob is the wire form of.
pub open spec fn report_of(bytes: Seq<u8>) -> AttestationReport {
    choose|report: AttestationReport| report.wire() == bytes
}

impl Signature {
    /// The 512 bytes that the signature occupies on the wire.
    pub open spec fn wire(self) -> Seq<u8> {
        reversed(self.r@) + reversed(self.s@) + self.reserved@
    }
}

impl AttestationReport {
    /// Bytes 0x000 to 0x050 of the wire form.
    pub open spec fn wire_head(self) -> Seq<u8> {
        spec_u32_to_le_bytes(self.version) + spec_u32_to_le_bytes(self.guest_svn)
            + spec_u64_to_le_bytes(self.policy) + self.family_id@ + self.image_id@
            + spec_u32_to_le_bytes(self.vmpl) + spec_u32_to_le_bytes(self.signature_algorithm)
            + self.current_tcb.raw@ + spec_u64_to_le_bytes(self.platform_info)
            + spec_u32_to_le_bytes(self.key_info) + self.reserved_a@
    }

    /// Bytes 0x050 to 0x180 of the wire form.
    pub open spec fn wire_digests(self) -> Seq<u8> {
        self.report_data@ + self.measurement@ + self.host_data@ + self.id_key_digest@
            + self.author_key_digest@ + self.report_id@ + self.report_id_ma@
    }

    /// Bytes 0x180 to 0x2a0 of the wire form.
    pub open spec fn wire_platform(self) -> Seq<u8> {
        self.reported_tcb.raw@ + seq![self.cpuid_fam_id, self.cpuid_mod_id, self.cpuid_step_id]
            + self.reserved_b@ + self.chip_id@ + self.committed_tcb.raw@ + seq![
            self.current_build,
            self.current_minor,
            self.current_major,
            self.reserved_c,
            self.committed_build,
            self.committed_minor,
            self.committed_major,
            self.reserved_d,
        ] + self.launch_tcb.raw@ + self.reserved_e@
    }

    /// The report as it stands on the wire: the model of a report.
    pub open spec fn wire(self) -> Seq<u8> {
        self.wire_head() + self.wire_digests() + self.wire_platform() + self.signature.wire()
    }

    /// The part of the wire form that the signature covers.
    pub open spec fn signed_region(self) -> Seq<u8> {
        self.wire_head() + self.wire_digests() + self.wire_platform()
    }
}

fn read_u32(bytes: &[u8], at: usize) -> (v: u32)
    requires
        at + 4 <= bytes.len(),
    ensures
        v == spec_u32_from_le_bytes(bytes@.subrange(at as int, at + 4)),
{
    u32_from_le_bytes(slice_subrange(bytes, at, at + 4))
}

fn read_u64(bytes: &[u8], at: usize) -> (v: u64)
    requires
        at + 8 <= bytes.len(),
    ensures
        v == spec_u64_from_le_bytes(bytes@.subrange(at as int, at + 8)),
{
    u64_from_le_bytes(slice_subrange(bytes, at, at + 8))
}

fn read_array<const N: usize>(bytes: &[u8], at: usize) -> (out: [u8; N])
    requires
        at + N <= bytes.len(),
    ensures
        out@ == bytes@.subrange(at as int, at + N),
{
    let mut out = [0u8;N];
    let mut i: usize = 0;
    while i < N
        invariant
            i <= N,
            at + N <= bytes.len(),
            forall|k: int| 0 <= k < i ==> out@[k] == bytes@[at + k],
        decreases N - i,
    {
        out[i] = bytes[at + i];
        i += 1;
    }
    assert(out@ =~= bytes@.subrange(at as int, at + N));
    out
}

fn read_reversed<const N: usize>(bytes: &[u8], at: usize) -> (out: [u8; N])
    requires
        at + N <= bytes.len(),
    ensures
        reversed(out@) == bytes@.subrange(at as int, at + N),
{
    let mut out = [0u8;N];
    let mut i: usize = 0;
    while i < N
        invariant
            i <= N,
            at + N <= bytes.len(),
            forall|k: int| N - i <= k < N ==> out@[k] == bytes@[at + N - 1 - k],
        decreases N - i,
    {
        out[N - 1 - i] = bytes[at + i];
        i += 1;
    }
    assert(reversed(out@) =~= bytes@.subrange(at as int, at + N));
    out
}

fn append(out: &mut Vec<u8>, piece: &[u8])
    ensures
        final(out)@ == old(out)@ + piece@,
{
    let mut i: usize = 0;
    while i < piece.len()
        invariant
            i <= piece@.len(),
            out@ == old(out)@ + piece@.subrange(0, i as int),
        decreases piece@.len() - i,
    {
        out.push(piece[i]);
        i += 1;
        assert(out@ =~= old(out)@ + piece@.subrange(0, i as int));
    }
    assert(piece@.subrange(0, piece@.len() as int) =~= piece@);
}

fn append_reversed(out: &mut Vec<u8>, piece: &[u8])
    ensures
        final(out)@ == old(out)@ + reversed(piece@),
{
    let n = piece.len();
    let mut i: usize = 0;
    while i < n
        invariant
            i <= n,
            n == piece@.len(),
            out@ == old(out)@ + reversed(piece@).subrange(0, i as int),
        decreases n - i,
    {
        out.push(piece[n - 1 - i]);
        i += 1;
        assert(out@ =~= old(out)@ + reversed(piece@).subrange(0, i as int));
    }
    assert(reversed(piece@).subrange(0, n as int) =~= reversed(piece@));
}


impl AttestationReport {
    fn head_bytes(&self) -> (out: Vec<u8>)
        ensures
            out@ == self.wire_head(),
    {
        let mut out = u32_to_le_bytes(self.version);
        append(&mut out, u32_to_le_bytes(self.guest_svn).as_slice());
        append(&mut out, u64_to_le_bytes(self.policy).as_slice());
        append(&mut out, self.family_id.as_slice());
        append(&mut out, self.image_id.as_slice());
        append(&mut out, u32_to_le_bytes(self.vmpl).as_slice());
        append(&mut out, u32_to_le_bytes(self.signature_algorithm).as_slice());
        append(&mut out, self.current_tcb.raw.as_slice());
        append(&mut out, u64_to_le_bytes(self.platform_info).as_slice());
        append(&mut out, u32_to_le_bytes(self.key_info).as_slice());
        append(&mut out, self.reserved_a.as_slice());
        out
    }

    fn digest_bytes(&self) -> (out: Vec<u8>)
        ensures
            out@ == self.wire_digests(),
    {
        let mut out = Vec::new();
        append(&mut out, self.report_data.as_slice());
        append(&mut out, self.measurement.as_slice());
        append(&mut out, self.host_data.as_slice());
        append(&mut out, self.id_key_digest.as_slice());
        append(&mut out, self.author_key_digest.as_slice());
        append(&mut out, self.report_id.as_slice());
        append(&mut out, self.report_id_ma.as_slice());
        assert(out@ =~= self.wire_digests());
        out
    }

    fn platform_bytes(&self) -> (out: Vec<u8>)
        ensures
            out@ == self.wire_platform(),
    {
        let mut out = Vec::new();
        append(&mut out, self.reported_tcb.raw.as_slice());
        let ids = [self.cpuid_fam_id, self.cpuid_mod_id, self.cpuid_step_id];
        assert(ids@ =~= seq![self.cpuid_fam_id, self.cpuid_mod_id, self.cpuid_step_id]);
        append(&mut out, ids.as_slice());
        append(&mut out, self.reserved_b.as_slice());
        append(&mut out, self.chip_id.as_slice());
        append(&mut out, self.committed_tcb.raw.as_slice());
        let versions = [
            self.current_build,
            self.current_minor,
            self.current_major,
            self.reserved_c,
            self.committed_build,
            self.committed_minor,
            self.committed_major,
            self.reserved_d,
        ];
        assert(versions@ =~= seq![
            self.current_build,
            self.current_minor,
            self.current_major,
            self.reserved_c,
            self.committed_build,
            self.committed_minor,
            self.committed_major,
            self.reserved_d,
        ]);
        append(&mut out, versions.as_slice());
        append(&mut out, self.launch_tcb.raw.as_slice());
        append(&mut out, self.reserved_e.as_slice());
        assert(out@ =~= self.wire_platform());
        out
    }

    /// The bytes that the report's signature covers.
    pub fn signed_bytes(&self) -> (out: Vec<u8>)
        ensures
            out@ == self.signed_region(),
    {
        let mut out = self.head_bytes();
        append(&mut out, self.digest_bytes().as_slice());
        append(&mut out, self.platform_bytes().as_slice());
        out
    }

    /// Encodes the report in its wire form.
    pub fn to_bytes(&self) -> (out: Vec<u8>)
        ensures
            out@ == self.wire(),
    {
        let mut out = self.signed_bytes();
        let mut sig: Vec<u8> = Vec::new();
        append_reversed(&mut sig, self.signature.r.as_slice());
        append_reversed(&mut sig, self.signature.s.as_slice());
        append(&mut sig, self.signature.reserved.as_slice());
        assert(sig@ =~= self.signature.wire());
        append(&mut out, sig.as_slice());
        out
    }

    /// Decodes a report from its wire form. Every blob of the right length
    /// whose version is supported is decoded, and to the one report that
    /// encodes to it; nothing else is.
    pub fn parse(bytes: &[u8]) -> (res: Result<AttestationReport, ParseError>)
        ensures
            match res {
                Ok(report) => parse_verdict(bytes@) is None && report.wire() == bytes@ && report
                    == report_of(bytes@),
                Err(e) => parse_verdict(bytes@) == Some(e),
            },
    {
        if bytes.len() < REPORT_LEN {
            return Err(ParseError::TruncatedInput);
        }
        if bytes.len() > REPORT_LEN {
            return Err(ParseError::ExcessInput);
        }
        let version = read_u32(bytes, 0);
        if version < MIN_VERSION || version > MAX_VERSION {
            return Err(ParseError::UnsupportedVersion(version));
        }
        let report = AttestationReport {
            version,
            guest_svn: read_u32(bytes, 0x004),
            policy: read_u64(bytes, 0x008),
            family_id: read_array::<16>(bytes, 0x010),
            image_id: read_array::<16>(bytes, 0x020),
            vmpl: read_u32(bytes, 0x030),
            signature_algorithm: read_u32(bytes, 0x034),
            current_tcb: TcbVersion { raw: read_array::<8>(bytes, 0x038) },
            platform_info: read_u64(bytes, 0x040),
            key_info: read_u32(bytes, 0x048),
            reserved_a: read_array::<4>(bytes, 0x04c),
            report_data: read_array::<64>(bytes, 0x050),
            measurement: read_array::<48>(bytes, 0x090),
            host_data: read_array::<32>(bytes, 0x0c0),
            id_key_digest: read_array::<48>(bytes, 0x0e0),
            author_key_digest: read_array::<48>(bytes, 0x110),
            report_id: read_array::<32>(bytes, 0x140),
            report_id_ma: read_array::<32>(bytes, 0x160),
            reported_tcb: TcbVersion { raw: read_array::<8>(bytes, 0x180) },
            cpuid_fam_id: bytes[0x188],
            cpuid_mod_id: bytes[0x189],
            cpuid_step_id: bytes[0x18a],
            reserved_b: read_array::<21>(bytes, 0x18b),
            chip_id: read_array::<64>(bytes, 0x1a0),
            committed_tcb: TcbVersion { raw: read_array::<8>(bytes, 0x1e0) },
            current_build: bytes[0x1e8],
            current_minor: bytes[0x1e9],
            current_major: bytes[0x1ea],
            reserved_c: bytes[0x1eb],
            committed_build: bytes[0x1ec],
            committed_minor: bytes[0x1ed],
            committed_major: bytes[0x1ee],
            reserved_d: bytes[0x1ef],
            launch_tcb: TcbVersion { raw: read_array::<8>(bytes, 0x1f0) },
            reserved_e: read_array::<168>(bytes, 0x1f8),
            signature: Signature {
                r: read_reversed::<72>(bytes, 0x2a0),
                s: read_reversed::<72>(bytes, 0x2e8),
                reserved: read_array::<368>(bytes, 0x330),
            },
        };
        proof {
            lemma_auto_spec_u32_to_from_le_bytes();
            lemma_auto_spec_u64_to_from_le_bytes();
            assert(report.wire_head() =~= bytes@.subrange(0, 0x050));
            assert(report.wire_digests() =~= bytes@.subrange(0x050, 0x180));
            assert(report.wire_platform() =~= bytes@.subrange(0x180, 0x2a0));
            assert(report.signature.wire() =~= bytes@.subrange(0x2a0, 0x4a0));
            assert(report.wire() =~= bytes@);
            wire_injective(report, report_of(bytes@));
        }
        Ok(report)
    }
}


/// Reversing twice gives the sequence back.
pub proof fn reversed_twice(s: Seq<u8>)
    ensures
        reversed(reversed(s)) == s,
{
    assert(reversed(reversed(s)) =~= s);
}

/// The lengths of the wire form and of its signed part, and that the signed
/// part is the front of the wire form.
pub proof fn wire_lengths(report: AttestationReport)
    ensures
        report.wire_head().len() == 0x050,
        report.wire_digests().len() == 0x130,
        report.wire_platform().len() == 0x120,
        report.signature.wire().len() == 0x200,
        report.wire().len() == REPORT_LEN,
        report.signed_region().len() == SIGNED_LEN,
        report.signed_region() == report.wire().subrange(0, SIGNED_LEN as int),
{
    lemma_auto_spec_u32_to_from_le_bytes();
    lemma_auto_spec_u64_to_from_le_bytes();
    assert(report.signed_region() =~= report.wire().subrange(0, SIGNED_LEN as int));
}

/// Where each field stands in the wire form.
pub proof fn wire_layout(report: AttestationReport)
    ensures
        report.wire().subrange(0x000, 0x004) == spec_u32_to_le_bytes(report.version),
        report.wire().subrange(0x004, 0x008) == spec_u32_to_le_bytes(report.guest_svn),
        report.wire().subrange(0x008, 0x010) == spec_u64_to_le_bytes(report.policy),
        report.wire().subrange(0x010, 0x020) == report.family_id@,
        report.wire().subrange(0x020, 0x030) == report.image_id@,
        report.wire().subrange(0x030, 0x034) == spec_u32_to_le_bytes(report.vmpl),
        report.wire().subrange(0x034, 0x038) == spec_u32_to_le_bytes(report.signature_algorithm),
        report.wire().subrange(0x038, 0x040) == report.current_tcb.raw@,
        report.wire().subrange(0x040, 0x048) == spec_u64_to_le_bytes(report.platform_info),
        report.wire().subrange(0x048, 0x04c) == spec_u32_to_le_bytes(report.key_info),
        report.wire().subrange(0x04c, 0x050) == report.reserved_a@,
        report.wire().subrange(0x050, 0x090) == report.report_data@,
        report.wire().subrange(0x090, 0x0c0) == report.measurement@,
        report.wire().subrange(0x0c0, 0x0e0) == report.host_data@,
        report.wire().subrange(0x0e0, 0x110) == report.id_key_digest@,
        report.wire().subrange(0x110, 0x140) == report.author_key_digest@,
        report.wire().subrange(0x140, 0x160) == report.report_id@,
        report.wire().subrange(0x160, 0x180) == report.report_id_ma@,
        report.wire().subrange(0x180, 0x188) == report.reported_tcb.raw@,
        report.wire()[0x188] == report.cpuid_fam_id,
        report.wire()[0x189] == report.cpuid_mod_id,
        report.wire()[0x18a] == report.cpuid_step_id,
        report.wire().subrange(0x18b, 0x1a0) == report.reserved_b@,
        report.wire().subrange(0x1a0, 0x1e0) == report.chip_id@,
        report.wire().subrange(0x1e0, 0x1e8) == report.committed_tcb.raw@,
        report.wire()[0x1e8] == report.current_build,
        report.wire()[0x1e9] == report.current_minor,
        report.wire()[0x1ea] == report.current_major,
        report.wire()[0x1eb] == report.reserved_c,
        report.wire()[0x1ec] == report.committed_build,
        report.wire()[0x1ed] == report.committed_minor,
        report.wire()[0x1ee] == report.committed_major,
        report.wire()[0x1ef] == report.reserved_d,
        report.wire().subrange(0x1f0, 0x1f8) == report.launch_tcb.raw@,
        report.wire().subrange(0x1f8, 0x2a0) == report.reserved_e@,
        report.wire().subrange(0x2a0, 0x2e8) == reversed(report.signature.r@),
        report.wire().subrange(0x2e8, 0x330) == reversed(report.signature.s@),
        report.wire().subrange(0x330, 0x4a0) == report.signature.reserved@,
{
    lemma_auto_spec_u32_to_from_le_bytes();
    lemma_auto_spec_u64_to_from_le_bytes();
    wire_lengths(report);
    let w = report.wire();
    assert(w.subrange(0x000, 0x050) =~= report.wire_head());
    assert(w.subrange(0x050, 0x180) =~= report.wire_digests());
    assert(w.subrange(0x180, 0x2a0) =~= report.wire_platform());
    assert(w.subrange(0x2a0, 0x4a0) =~= report.signature.wire());
    let h = report.wire_head();
    assert(w.subrange(0x000, 0x004) =~= h.subrange(0x000, 0x004));
    assert(w.subrange(0x004, 0x008) =~= h.subrange(0x004, 0x008));
    assert(w.subrange(0x008, 0x010) =~= h.subrange(0x008, 0x010));
    assert(w.subrange(0x010, 0x020) =~= h.subrange(0x010, 0x020));
    assert(w.subrange(0x020, 0x030) =~= h.subrange(0x020, 0x030));
    assert(w.subrange(0x030, 0x034) =~= h.subrange(0x030, 0x034));
    assert(w.subrange(0x034, 0x038) =~= h.subrange(0x034, 0x038));
    assert(w.subrange(0x038, 0x040) =~= h.subrange(0x038, 0x040));
    assert(w.subrange(0x040, 0x048) =~= h.subrange(0x040, 0x048));
    assert(w.subrange(0x048, 0x04c) =~= h.subrange(0x048, 0x04c));
    assert(w.subrange(0x04c, 0x050) =~= h.subrange(0x04c, 0x050));
    assert(h.subrange(0x000, 0x004) =~= spec_u32_to_le_bytes(report.version));
    assert(h.subrange(0x004, 0x008) =~= spec_u32_to_le_bytes(report.guest_svn));
    assert(h.subrange(0x008, 0x010) =~= spec_u64_to_le_bytes(report.policy));
    assert(h.subrange(0x010, 0x020) =~= report.family_id@);
    assert(h.subrange(0x020, 0x030) =~= report.image_id@);
    assert(h.subrange(0x030, 0x034) =~= spec_u32_to_le_bytes(report.vmpl));
    assert(h.subrange(0x034, 0x038) =~= spec_u32_to_le_bytes(report.signature_algorithm));
    assert(h.subrange(0x038, 0x040) =~= report.current_tcb.raw@);
    assert(h.subrange(0x040, 0x048) =~= spec_u64_to_le_bytes(report.platform_info));
    assert(h.subrange(0x048, 0x04c) =~= spec_u32_to_le_bytes(report.key_info));
    assert(h.subrange(0x04c, 0x050) =~= report.reserved_a@);
    let d = report.wire_digests();
    assert(w.subrange(0x050, 0x090) =~= d.subrange(0x000, 0x040));
    assert(w.subrange(0x090, 0x0c0) =~= d.subrange(0x040, 0x070));
    assert(w.subrange(0x0c0, 0x0e0) =~= d.subrange(0x070, 0x090));
    assert(w.subrange(0x0e0, 0x110) =~= d.subrange(0x090, 0x0c0));
    assert(w.subrange(0x110, 0x140) =~= d.subrange(0x0c0, 0x0f0));
    assert(w.subrange(0x140, 0x160) =~= d.subrange(0x0f0, 0x110));
    assert(w.subrange(0x160, 0x180) =~= d.subrange(0x110, 0x130));
    assert(d.subrange(0x000, 0x040) =~= report.report_data@);
    assert(d.subrange(0x040, 0x070) =~= report.measurement@);
    assert(d.subrange(0x070, 0x090) =~= report.host_data@);
    assert(d.subrange(0x090, 0x0c0) =~= report.id_key_digest@);
    assert(d.subrange(0x0c0, 0x0f0) =~= report.author_key_digest@);
    assert(d.subrange(0x0f0, 0x110) =~= report.report_id@);
    assert(d.subrange(0x110, 0x130) =~= report.report_id_ma@);
    let p = report.wire_platform();
    assert(forall|i: int| 0 <= i < 0x120 ==> w[0x180 + i] == #[trigger] p[i]);
    assert(w.subrange(0x180, 0x188) =~= p.subrange(0x000, 0x008));
    assert(w.subrange(0x18b, 0x1a0) =~= p.subrange(0x00b, 0x020));
    assert(w.subrange(0x1a0, 0x1e0) =~= p.subrange(0x020, 0x060));
    assert(w.subrange(0x1e0, 0x1e8) =~= p.subrange(0x060, 0x068));
    assert(w.subrange(0x1f0, 0x1f8) =~= p.subrange(0x070, 0x078));
    assert(w.subrange(0x1f8, 0x2a0) =~= p.subrange(0x078, 0x120));
    assert(p.subrange(0x000, 0x008) =~= report.reported_tcb.raw@);
    assert(p.subrange(0x00b, 0x020) =~= report.reserved_b@);
    assert(p.subrange(0x020, 0x060) =~= report.chip_id@);
    assert(p.subrange(0x060, 0x068) =~= report.committed_tcb.raw@);
    assert(p.subrange(0x070, 0x078) =~= report.launch_tcb.raw@);
    assert(p.subrange(0x078, 0x120) =~= report.reserved_e@);
    assert(w[0x188] == p[0x008] && w[0x189] == p[0x009] && w[0x18a] == p[0x00a]);
    assert(w[0x1e8] == p[0x068] && w[0x1e9] == p[0x069] && w[0x1ea] == p[0x06a] && w[0x1eb]
        == p[0x06b]);
    assert(w[0x1ec] == p[0x06c] && w[0x1ed] == p[0x06d] && w[0x1ee] == p[0x06e] && w[0x1ef]
        == p[0x06f]);
    let g = report.signature.wire();
    assert(w.subrange(0x2a0, 0x2e8) =~= g.subrange(0x000, 0x048));
    assert(w.subrange(0x2e8, 0x330) =~= g.subrange(0x048, 0x090));
    assert(w.subrange(0x330, 0x4a0) =~= g.subrange(0x090, 0x200));
    assert(g.subrange(0x000, 0x048) =~= reversed(report.signature.r@));
    assert(g.subrange(0x048, 0x090) =~= reversed(report.signature.s@));
    assert(g.subrange(0x090, 0x200) =~= report.signature.reserved@);
}

/// Two reports with the same wire form are the same report.
pub proof fn wire_injective(a: AttestationReport, b: AttestationReport)
    requires
        a.wire() == b.wire(),
    ensures
        a == b,
{
    lemma_auto_spec_u32_to_from_le_bytes();
    lemma_auto_spec_u64_to_from_le_bytes();
    wire_layout(a);
    wire_layout(b);
    reversed_twice(a.signature.r@);
    reversed_twice(b.signature.r@);
    reversed_twice(a.signature.s@);
    reversed_twice(b.signature.s@);
    assert(a.version == b.version) by {
        assert(spec_u32_to_le_bytes(a.version).len() == 4);
        assert(spec_u32_to_le_bytes(b.version).len() == 4);
    }
    assert(a.guest_svn == b.guest_svn) by {
        assert(spec_u32_to_le_bytes(a.guest_svn).len() == 4);
        assert(spec_u32_to_le_bytes(b.guest_svn).len() == 4);
    }
    assert(a.vmpl == b.vmpl) by {
        assert(spec_u32_to_le_bytes(a.vmpl).len() == 4);
        assert(spec_u32_to_le_bytes(b.vmpl).len() == 4);
    }
    assert(a.signature_algorithm == b.signature_algorithm) by {
        assert(spec_u32_to_le_bytes(a.signature_algorithm).len() == 4);
        assert(spec_u32_to_le_bytes(b.signature_algorithm).len() == 4);
    }
    assert(a.key_info == b.key_info) by {
        assert(spec_u32_to_le_bytes(a.key_info).len() == 4);
        assert(spec_u32_to_le_bytes(b.key_info).len() == 4);
    }
    assert(a.policy == b.policy) by {
        assert(spec_u64_to_le_bytes(a.policy).len() == 8);
        assert(spec_u64_to_le_bytes(b.policy).len() == 8);
    }
    assert(a.platform_info == b.platform_info) by {
        assert(spec_u64_to_le_bytes(a.platform_info).len() == 8);
        assert(spec_u64_to_le_bytes(b.platform_info).len() == 8);
    }
    assert(a.family_id@ =~= b.family_id@);
    assert(a.family_id =~= b.family_id);
    assert(a.image_id@ =~= b.image_id@);
    assert(a.image_id =~= b.image_id);
    assert(a.current_tcb.raw@ =~= b.current_tcb.raw@);
    assert(a.current_tcb.raw =~= b.current_tcb.raw);
    assert(a.reserved_a@ =~= b.reserved_a@);
    assert(a.reserved_a =~= b.reserved_a);
    assert(a.report_data@ =~= b.report_data@);
    assert(a.report_data =~= b.report_data);
    assert(a.measurement@ =~= b.measurement@);
    assert(a.measurement =~= b.measurement);
    assert(a.host_data@ =~= b.host_data@);
    assert(a.host_data =~= b.host_data);
    assert(a.id_key_digest@ =~= b.id_key_digest@);
    assert(a.id_key_digest =~= b.id_key_digest);
    assert(a.author_key_digest@ =~= b.author_key_digest@);
    assert(a.author_key_digest =~= b.author_key_digest);
    assert(a.report_id@ =~= b.report_id@);
    assert(a.report_id =~= b.report_id);
    assert(a.report_id_ma@ =~= b.report_id_ma@);
    assert(a.report_id_ma =~= b.report_id_ma);
    assert(a.reported_tcb.raw@ =~= b.reported_tcb.raw@);
    assert(a.reported_tcb.raw =~= b.reported_tcb.raw);
    assert(a.reserved_b@ =~= b.reserved_b@);
    assert(a.reserved_b =~= b.reserved_b);
    assert(a.chip_id@ =~= b.chip_id@);
    assert(a.chip_id =~= b.chip_id);
    assert(a.committed_tcb.raw@ =~= b.committed_tcb.raw@);
    assert(a.committed_tcb.raw =~= b.committed_tcb.raw);
    assert(a.launch_tcb.raw@ =~= b.launch_tcb.raw@);
    assert(a.launch_tcb.raw =~= b.launch_tcb.raw);
    assert(a.reserved_e@ =~= b.reserved_e@);
    assert(a.reserved_e =~= b.reserved_e);
    assert(a.signature.r@ =~= b.signature.r@);
    assert(a.signature.r =~= b.signature.r);
    assert(a.signature.s@ =~= b.signature.s@);
    assert(a.signature.s =~= b.signature.s);
    assert(a.signature.reserved@ =~= b.signature.reserved@);
    assert(a.signature.reserved =~= b.signature.reserved);
    assert(a.current_tcb == b.current_tcb);
    assert(a.reported_tcb == b.reported_tcb);
    assert(a.committed_tcb == b.committed_tcb);
    assert(a.launch_tcb == b.launch_tcb);
    assert(a.signature == b.signature);
    assert(a =~= b);
}

/// A report's wire form is decoded exactly when the report's version is
/// supported.
pub proof fn wire_is_decoded(report: AttestationReport)
    ensures
        parse_verdict(report.wire()) is None <==> version_supported(report.version),
        !version_supported(report.version) ==> parse_verdict(report.wire()) == Some(
            ParseError::UnsupportedVersion(report.version),
        ),
{
    lemma_auto_spec_u32_to_from_le_bytes();
    wire_lengths(report);
    wire_layout(report);
    assert(spec_u32_to_le_bytes(report.version).len() == 4);
}

/// A blob cut short by any amount is rejected as truncated, whatever it
/// holds.
pub proof fn truncated_is_rejected(bytes: Seq<u8>, kept: int)
    requires
        bytes.len() <= REPORT_LEN,
        0 <= kept < bytes.len(),
    ensures
        parse_verdict(bytes.subrange(0, kept)) == Some(ParseError::TruncatedInput),
{
}

/// The report that a report's wire form stands for is that report.
pub proof fn report_of_wire(report: AttestationReport)
    ensures
        report_of(report.wire()) == report,
{
    wire_injective(report_of(report.wire()), report);
}

/// Two reports with the same signed bytes and the same signature are the
/// same report: a change to any signed field changes the bytes that the
/// signature is held against.
pub proof fn signed_region_decides(a: AttestationReport, b: AttestationReport)
    requires
        a.signed_region() == b.signed_region(),
        a.signature == b.signature,
    ensures
        a == b,
{
    wire_injective(a, b);
}

} // verus!
