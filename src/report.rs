//! The attestation report path: the caller's report data (nonce), the binary
//! report codec, and the SEV status register read next to it.
use crate::features::GuestFeatureSet;
use base64::engine::general_purpose::STANDARD_NO_PAD;
use base64::Engine;
use sev::firmware::guest::AttestationReport;
use vstd::prelude::*;

verus! {

/// Length of the report data handed to the firmware, in bytes.
pub const REPORT_DATA_BYTES: usize = 64;

/// Length of a binary attestation report, in bytes.
pub const ATTESTATION_REPORT_BYTES: usize = 1184;

/// Index of the SEV status MSR (`MSR_AMD64_SEV`).
pub const MSR_AMD64_SEV: u32 = 0xC0010131;

/// Length of an MSR value, in bytes.
pub const MSR_SIZE: usize = 8;

#[verifier::external_type_specification]
#[verifier::external_body]
pub struct ExAttestationReport(AttestationReport);

/// Why no report data was produced.
#[derive(Clone, Copy, Debug, PartialEq, Eq, Structural)]
pub enum ReportDataError {
    /// The text is not unpadded standard base64.
    InvalidBase64,
    /// The decoded data has this many bytes, more than 64.
    TooLong(usize),
}

/// Why a report could not be decoded or encoded.
#[derive(Clone, Copy, Debug, PartialEq, Eq, Structural)]
pub enum ReportError {
    /// The buffer has this many bytes instead of 1184.
    WrongLength(usize),
    /// The bytes do not follow the report layout.
    Malformed,
    /// The report could not be written back to its binary form.
    EncodeFailed,
}

/// What unpadded standard base64 decoding makes of a text, or `None` when the
/// text is not valid.
pub uninterp spec fn base64_no_pad_decoded(s: Seq<char>) -> Option<Seq<u8>>;

/// `raw` followed by zeros up to 64 bytes.
pub open spec fn padded_report_data(raw: Seq<u8>) -> Seq<u8> {
    raw + Seq::new((REPORT_DATA_BYTES - raw.len()) as nat, |i: int| 0u8)
}

/// The unsigned value of bytes in little-endian order.
pub open spec fn le_value(s: Seq<u8>) -> nat
    decreases s.len(),
{
    if s.len() == 0 {
        0
    } else {
        s[0] as nat + 256 * le_value(s.drop_first())
    }
}

/// Relies on base64's `STANDARD_NO_PAD.decode`, whose result depends on the
/// text alone.
#[verifier::external_body]
fn decode_base64_no_pad(s: &str) -> (r: Option<Vec<u8>>)
    ensures
        r matches Some(v) ==> base64_no_pad_decoded(s@) == Some(v@),
        r is None ==> base64_no_pad_decoded(s@) is None,
{
    STANDARD_NO_PAD.decode(s).ok()
}

/// The 64 bytes handed to the firmware: `raw` padded with zeros. More than
/// 64 bytes are refused with their number.
pub fn pad_report_data(raw: &Vec<u8>) -> (r: Result<[u8; REPORT_DATA_BYTES], ReportDataError>)
    ensures
        raw@.len() <= REPORT_DATA_BYTES ==> (r matches Ok(a) && a@ == padded_report_data(raw@)),
        raw@.len() > REPORT_DATA_BYTES ==> r == Err::<[u8; REPORT_DATA_BYTES], ReportDataError>(
            ReportDataError::TooLong(raw@.len() as usize),
        ),
{
    if raw.len() > REPORT_DATA_BYTES {
        return Err(ReportDataError::TooLong(raw.len()));
    }
    let mut a: [u8; REPORT_DATA_BYTES] = [0u8; REPORT_DATA_BYTES];
    let mut i: usize = 0;
    while i < raw.len()
        invariant
            i <= raw@.len() <= REPORT_DATA_BYTES,
            a@.len() == REPORT_DATA_BYTES,
            forall|j: int| 0 <= j < i ==> a@[j] == raw@[j],
            forall|j: int| raw@.len() <= j < REPORT_DATA_BYTES ==> a@[j] == 0u8,
        decreases raw@.len() - i,
    {
        a.set(i, raw[i]);
        i = i + 1;
    }
    assert(a@ =~= padded_report_data(raw@));
    Ok(a)
}

/// The report data given as unpadded standard base64: decoded, then padded
/// with zeros to 64 bytes.
pub fn decode_report_data(encoded: &str) -> (r: Result<[u8; REPORT_DATA_BYTES], ReportDataError>)
    ensures
        base64_no_pad_decoded(encoded@) is None ==> r == Err::<
            [u8; REPORT_DATA_BYTES],
            ReportDataError,
        >(ReportDataError::InvalidBase64),
        base64_no_pad_decoded(encoded@) matches Some(raw) ==> (if raw.len()
            <= REPORT_DATA_BYTES {
            r matches Ok(a) && a@ == padded_report_data(raw)
        } else {
            r == Err::<[u8; REPORT_DATA_BYTES], ReportDataError>(
                ReportDataError::TooLong(raw.len() as usize),
            )
        }),
{
    match decode_base64_no_pad(encoded) {
        Some(raw) => pad_report_data(&raw),
        None => Err(ReportDataError::InvalidBase64),
    }
}

/// Whether `AttestationReport::from_bytes` accepts a buffer: a function of
/// the bytes alone.
pub uninterp spec fn report_parses(b: Seq<u8>) -> bool;

/// A report that was decoded from its binary layout. Only `decode_report`
/// makes one, so the report inside is always one that `from_bytes` produced.
pub struct DecodedReport {
    report: AttestationReport,
}

/// Relies on `AttestationReport::from_bytes`, which parses a report in its
/// binary layout and refuses a buffer of any other length than 1184 bytes.
#[verifier::external_body]
fn parse_report(bytes: &[u8]) -> (r: Option<AttestationReport>)
    ensures
        r is Some <==> report_parses(bytes@),
        bytes@.len() != ATTESTATION_REPORT_BYTES ==> r is None,
{
    AttestationReport::from_bytes(bytes).ok()
}

/// Relies on `AttestationReport::write_bytes`, which writes the report in its
/// binary layout. On a report that `from_bytes` produced it cannot fail: it
/// derives the layout variant from the same version field, the processor
/// generation from the same CPUID and chip-ID bytes, and accepts the same
/// generations for the TCB fields as the parse did, and writing into a
/// `Vec` does not fail.
#[verifier::external_body]
fn write_report(decoded: &DecodedReport) -> (r: Option<Vec<u8>>)
    ensures
        r is Some,
{
    let mut out: Vec<u8> = Vec::new();
    match decoded.report.write_bytes(&mut out) {
        Ok(()) => Some(out),
        Err(_) => None,
    }
}

/// Decodes a binary attestation report. A buffer of another length than
/// 1184 bytes is refused with its length before any parsing; one of the
/// right length is decoded exactly when its layout parses.
pub fn decode_report(bytes: &[u8]) -> (r: Result<DecodedReport, ReportError>)
    ensures
        bytes@.len() != ATTESTATION_REPORT_BYTES ==> r == Err::<DecodedReport, ReportError>(
            ReportError::WrongLength(bytes@.len() as usize),
        ),
        bytes@.len() == ATTESTATION_REPORT_BYTES && report_parses(bytes@) ==> r is Ok,
        bytes@.len() == ATTESTATION_REPORT_BYTES && !report_parses(bytes@) ==> r == Err::<
            DecodedReport,
            ReportError,
        >(ReportError::Malformed),
{
    if bytes.len() != ATTESTATION_REPORT_BYTES {
        return Err(ReportError::WrongLength(bytes.len()));
    }
    match parse_report(bytes) {
        Some(report) => Ok(DecodedReport { report }),
        None => Err(ReportError::Malformed),
    }
}

impl DecodedReport {
    /// The decoded report with all its fields.
    pub fn report(&self) -> (r: AttestationReport) {
        self.report
    }
}

/// Writes a decoded report back to its binary layout; this always succeeds.
pub fn encode_report_binary(decoded: &DecodedReport) -> (r: Result<Vec<u8>, ReportError>)
    ensures
        r is Ok,
{
    match write_report(decoded) {
        Some(bytes) => Ok(bytes),
        None => Err(ReportError::EncodeFailed),
    }
}

proof fn lemma_le_value_bound(s: Seq<u8>)
    ensures
        le_value(s) < pow256(s.len()),
    decreases s.len(),
{
    if s.len() > 0 {
        lemma_le_value_bound(s.drop_first());
        let a = s[0] as nat;
        let b = le_value(s.drop_first());
        let p = pow256(s.drop_first().len());
        assert(a < 256 && b < p ==> a + 256 * b < 256 * p) by (nonlinear_arith);
    }
}

/// 256 to the power `n`.
pub open spec fn pow256(n: nat) -> nat
    decreases n,
{
    if n == 0 {
        1
    } else {
        256 * pow256((n - 1) as nat)
    }
}

/// The value of an MSR from the eight bytes read for it, little-endian.
pub fn msr_value_from_bytes(b: &[u8; MSR_SIZE]) -> (v: u64)
    ensures
        v as nat == le_value(b@),
{
    let mut v: u64 = 0;
    let mut i: usize = MSR_SIZE;
    assert(b@.skip(MSR_SIZE as int) =~= Seq::<u8>::empty());
    while i > 0
        invariant
            i <= MSR_SIZE,
            b@.len() == MSR_SIZE,
            v as nat == le_value(b@.skip(i as int)),
        decreases i,
    {
        i = i - 1;
        let ghost rest = b@.skip(i + 1);
        assert(b@.skip(i as int).drop_first() =~= rest);
        proof {
            lemma_le_value_bound(rest);
            reveal_with_fuel(pow256, 8);
            assert(pow256(rest.len()) <= pow256(7)) by {
                lemma_pow256_monotone(rest.len(), 7);
            }
            assert(v * 256 + b@[i as int] < 0x1_0000_0000_0000_0000) by (nonlinear_arith)
                requires
                    v < pow256(7),
                    pow256(7) == 0x100_0000_0000_0000,
                    b@[i as int] < 256,
            ;
        }
        v = v * 256 + b[i] as u64;
    }
    assert(b@.skip(0) =~= b@);
    v
}

proof fn lemma_pow256_monotone(m: nat, n: nat)
    requires
        m <= n,
    ensures
        pow256(m) <= pow256(n),
    decreases n,
{
    if m < n {
        lemma_pow256_monotone(m, (n - 1) as nat);
    }
}

/// The guest features that the SEV status MSR reports: its value without
/// the two lowest bits.
pub fn features_from_sev_status(status: u64) -> (f: GuestFeatureSet)
    ensures
        f.bits == status >> 2,
{
    GuestFeatureSet { bits: status >> 2 }
}

} // verus!
