//! Comparison of the TCB version and chip identity that a report states with
//! the values that its endorsement key certificate holds in extensions.
use crate::cert_type::{CertType, CertTypeError, common_name_type, parse_common_name};
use crate::codec::{EncodingError, check_cert_bytes, decode_compare};
use crate::extensions::{CertFields, ext_view, find_extension, has_unique_oids, lookup, name_view, unique_oids};
use crate::report::{ProcType, Report};
use vstd::prelude::*;

verus! {

/// The certificate extensions that verification compares with the report.
#[derive(Clone, Copy, Debug, PartialEq, Eq, Structural)]
pub enum SnpOid {
    /// 1.3.6.1.4.1.3704.1.3.1
    BootLoader,
    /// 1.3.6.1.4.1.3704.1.3.2
    Tee,
    /// 1.3.6.1.4.1.3704.1.3.3
    Snp,
    /// 1.3.6.1.4.1.3704.1.3.8
    Ucode,
    /// 1.3.6.1.4.1.3704.1.4
    HwId,
    /// 1.3.6.1.4.1.3704.1.3.9
    Fmc,
}

/// The DER content encoding of the extension's object identifier.
pub open spec fn oid_bytes(o: SnpOid) -> Seq<u8> {
    let base = seq![0x2Bu8, 0x06, 0x01, 0x04, 0x01, 0x9C, 0x78, 0x01];
    match o {
        SnpOid::BootLoader => base + seq![0x03u8, 0x01],
        SnpOid::Tee => base + seq![0x03u8, 0x02],
        SnpOid::Snp => base + seq![0x03u8, 0x03],
        SnpOid::Ucode => base + seq![0x03u8, 0x08],
        SnpOid::HwId => base + seq![0x04u8],
        SnpOid::Fmc => base + seq![0x03u8, 0x09],
    }
}

impl SnpOid {
    /// The extension's object identifier, in DER content encoding.
    pub fn oid(&self) -> (r: Vec<u8>)
        ensures
            r@ == oid_bytes(*self),
    {
        let mut r: Vec<u8> = vec![0x2Bu8, 0x06, 0x01, 0x04, 0x01, 0x9C, 0x78, 0x01];
        match self {
            SnpOid::BootLoader => {
                r.push(0x03);
                r.push(0x01);
            },
            SnpOid::Tee => {
                r.push(0x03);
                r.push(0x02);
            },
            SnpOid::Snp => {
                r.push(0x03);
                r.push(0x03);
            },
            SnpOid::Ucode => {
                r.push(0x03);
                r.push(0x08);
            },
            SnpOid::HwId => {
                r.push(0x04);
            },
            SnpOid::Fmc => {
                r.push(0x03);
                r.push(0x09);
            },
        }
        assert(r@ =~= oid_bytes(*self));
        r
    }
}

/// Why the report's TCB does not agree with the certificate.
#[derive(Clone, Copy, Debug, PartialEq, Eq, Structural)]
pub enum TcbError {
    /// Two extensions of the certificate share an identifier.
    DuplicateExtensions,
    /// The certificate's role could not be told.
    CertType(CertTypeError),
    /// The certificate is not an endorsement key (a VCEK or a VLEK).
    NotEndorsementKey(CertType),
    /// The extension for this field has no recognised encoding.
    Malformed(SnpOid, EncodingError),
    /// The certificate and the report disagree on this field.
    Mismatch(SnpOid),
    /// The newest generation is asked for, but the report's version is older than 3.
    UnsupportedReportVersion,
    /// The certificate holds an FMC version and the report states none.
    MissingFmc,
}

/// What comparing the extension for `field` (if there is one) with the
/// report value `expected` gives.
pub open spec fn field_result(
    exts: Seq<(Seq<u8>, Seq<u8>)>,
    field: SnpOid,
    expected: Seq<u8>,
) -> Result<(), TcbError> {
    match lookup(exts, oid_bytes(field)) {
        None => Ok(()),
        Some(v) => match decode_compare(v, expected) {
            Err(e) => Err(TcbError::Malformed(field, e)),
            Ok(true) => Ok(()),
            Ok(false) => Err(TcbError::Mismatch(field)),
        },
    }
}

/// `first`, or `then` when `first` succeeded.
pub open spec fn and_then(first: Result<(), TcbError>, then: Result<(), TcbError>) -> Result<
    (),
    TcbError,
> {
    match first {
        Err(e) => Err(e),
        Ok(_) => then,
    }
}

/// The checks made for every processor: the certificate must be a VCEK or a
/// VLEK; then boot loader, TEE, SNP and microcode versions, then the chip
/// identity on a VCEK.
pub open spec fn common_result(
    common_name: Option<Seq<char>>,
    exts: Seq<(Seq<u8>, Seq<u8>)>,
    report: Report,
) -> Result<(), TcbError> {
    if !unique_oids(exts) {
        Err(TcbError::DuplicateExtensions)
    } else {
        match common_name_type(common_name) {
            Err(e) => Err(TcbError::CertType(e)),
            Ok(t) => if t != CertType::VCEK && t != CertType::VLEK {
                Err(TcbError::NotEndorsementKey(t))
            } else {
                let tcb = report.reported_tcb;
                and_then(
                    field_result(exts, SnpOid::BootLoader, seq![tcb.bootloader]),
                    and_then(
                        field_result(exts, SnpOid::Tee, seq![tcb.tee]),
                        and_then(
                            field_result(exts, SnpOid::Snp, seq![tcb.snp]),
                            and_then(
                                field_result(exts, SnpOid::Ucode, seq![tcb.microcode]),
                                if t == CertType::VCEK {
                                    field_result(exts, SnpOid::HwId, report.chip_id@)
                                } else {
                                    Ok(())
                                },
                            ),
                        ),
                    ),
                )
            },
        }
    }
}

/// The checks that only the newest generation asks for: a report of
/// version 3 or later, and the FMC version.
pub open spec fn generation_result(
    exts: Seq<(Seq<u8>, Seq<u8>)>,
    report: Report,
    proc_model: ProcType,
) -> Result<(), TcbError> {
    if proc_model != ProcType::Turin {
        Ok(())
    } else if report.version < 3 {
        Err(TcbError::UnsupportedReportVersion)
    } else {
        match lookup(exts, oid_bytes(SnpOid::Fmc)) {
            None => Ok(()),
            Some(_) => match report.reported_tcb.fmc {
                None => Err(TcbError::MissingFmc),
                Some(f) => field_result(exts, SnpOid::Fmc, seq![f]),
            },
        }
    }
}

/// What comparing the report's TCB with the certificate gives.
pub open spec fn tcb_result(
    common_name: Option<Seq<char>>,
    exts: Seq<(Seq<u8>, Seq<u8>)>,
    report: Report,
    proc_model: ProcType,
) -> Result<(), TcbError> {
    and_then(common_result(common_name, exts, report), generation_result(exts, report, proc_model))
}

fn check_field(cert: &CertFields, field: SnpOid, expected: &[u8]) -> (r: Result<(), TcbError>)
    ensures
        r == field_result(ext_view(cert.extensions@), field, expected@),
{
    let oid = field.oid();
    match find_extension(&cert.extensions, oid.as_slice()) {
        None => Ok(()),
        Some(v) => match check_cert_bytes(v.as_slice(), expected) {
            Err(e) => Err(TcbError::Malformed(field, e)),
            Ok(true) => Ok(()),
            Ok(false) => Err(TcbError::Mismatch(field)),
        },
    }
}

fn check_byte(cert: &CertFields, field: SnpOid, expected: u8) -> (r: Result<(), TcbError>)
    ensures
        r == field_result(ext_view(cert.extensions@), field, seq![expected]),
{
    let bytes: [u8; 1] = [expected];
    assert(bytes@ =~= seq![expected]);
    check_field(cert, field, &bytes)
}

/// Compares the TCB version and chip identity that `report` states with the
/// extensions of the endorsement key certificate `cert`, stopping at the
/// first field that disagrees. The certificate must be a VCEK or a VLEK.
/// The chip identity is compared on a VCEK
/// only; on the newest generation the report must be of version 3 or later
/// and the FMC version is compared too.
pub fn verify_attestation_tcb(cert: &CertFields, report: &Report, proc_model: ProcType) -> (r:
    Result<(), TcbError>)
    ensures
        r == tcb_result(name_view(cert.common_name), ext_view(cert.extensions@), *report, proc_model),
{
    if !has_unique_oids(&cert.extensions) {
        return Err(TcbError::DuplicateExtensions);
    }
    let cert_type = match parse_common_name(&cert.common_name) {
        Ok(t) => t,
        Err(e) => return Err(TcbError::CertType(e)),
    };
    if cert_type != CertType::VCEK && cert_type != CertType::VLEK {
        return Err(TcbError::NotEndorsementKey(cert_type));
    }
    let tcb = report.reported_tcb;
    check_byte(cert, SnpOid::BootLoader, tcb.bootloader)?;
    check_byte(cert, SnpOid::Tee, tcb.tee)?;
    check_byte(cert, SnpOid::Snp, tcb.snp)?;
    check_byte(cert, SnpOid::Ucode, tcb.microcode)?;
    if cert_type == CertType::VCEK {
        check_field(cert, SnpOid::HwId, report.chip_id.as_slice())?;
    }
    if proc_model == ProcType::Turin {
        if report.version < 3 {
            return Err(TcbError::UnsupportedReportVersion);
        }
        let fmc_oid = SnpOid::Fmc.oid();
        if find_extension(&cert.extensions, fmc_oid.as_slice()).is_some() {
            match tcb.fmc {
                None => return Err(TcbError::MissingFmc),
                Some(f) => check_byte(cert, SnpOid::Fmc, f)?,
            }
        }
    }
    Ok(())
}

/// The value in the report that the extension `field` is compared with.
pub open spec fn report_value(report: Report, field: SnpOid) -> Seq<u8> {
    let tcb = report.reported_tcb;
    match field {
        SnpOid::BootLoader => seq![tcb.bootloader],
        SnpOid::Tee => seq![tcb.tee],
        SnpOid::Snp => seq![tcb.snp],
        SnpOid::Ucode => seq![tcb.microcode],
        SnpOid::HwId => report.chip_id@,
        SnpOid::Fmc => match tcb.fmc {
            Some(f) => seq![f],
            None => Seq::empty(),
        },
    }
}

/// The extension of `field`, if the certificate holds one, agrees with the report.
pub open spec fn field_agrees(exts: Seq<(Seq<u8>, Seq<u8>)>, report: Report, field: SnpOid) -> bool {
    match lookup(exts, oid_bytes(field)) {
        None => true,
        Some(v) => decode_compare(v, report_value(report, field)) == Ok::<bool, EncodingError>(true),
    }
}

/// The certificate is an endorsement key whose extensions for the fields
/// compared on every processor agree with the report.
pub open spec fn common_fields_agree(
    common_name: Option<Seq<char>>,
    exts: Seq<(Seq<u8>, Seq<u8>)>,
    report: Report,
) -> bool {
    &&& unique_oids(exts)
    &&& (common_name_type(common_name) == Ok::<CertType, CertTypeError>(CertType::VCEK)
        || common_name_type(common_name) == Ok::<CertType, CertTypeError>(CertType::VLEK))
    &&& field_agrees(exts, report, SnpOid::BootLoader)
    &&& field_agrees(exts, report, SnpOid::Tee)
    &&& field_agrees(exts, report, SnpOid::Snp)
    &&& field_agrees(exts, report, SnpOid::Ucode)
    &&& (common_name_type(common_name) == Ok::<CertType, CertTypeError>(CertType::VCEK)
        ==> field_agrees(exts, report, SnpOid::HwId))
}

/// An endorsement key whose fields agree with the report passes the checks
/// made for every processor.
pub proof fn lemma_common_fields_pass(
    common_name: Option<Seq<char>>,
    exts: Seq<(Seq<u8>, Seq<u8>)>,
    report: Report,
)
    requires
        common_fields_agree(common_name, exts, report),
    ensures
        common_result(common_name, exts, report) == Ok::<(), TcbError>(()),
{
}

/// On the newest generation, a report older than version 3 whose other
/// fields agree with an endorsement key is refused for its version, and the
/// FMC extension and the report's FMC version play no part: any report that
/// differs from it in the FMC version alone gets the same error.
pub proof fn lemma_turin_needs_version_3(
    common_name: Option<Seq<char>>,
    exts: Seq<(Seq<u8>, Seq<u8>)>,
    report: Report,
    other: Report,
)
    requires
        report.version < 3,
        common_fields_agree(common_name, exts, report),
    ensures
        tcb_result(common_name, exts, report, ProcType::Turin) == Err::<(), TcbError>(
            TcbError::UnsupportedReportVersion,
        ),
        other.version == report.version && other.chip_id@ == report.chip_id@
            && other.reported_tcb.bootloader == report.reported_tcb.bootloader
            && other.reported_tcb.tee == report.reported_tcb.tee
            && other.reported_tcb.snp == report.reported_tcb.snp
            && other.reported_tcb.microcode == report.reported_tcb.microcode ==> tcb_result(
            common_name,
            exts,
            other,
            ProcType::Turin,
        ) == Err::<(), TcbError>(TcbError::UnsupportedReportVersion),
{
    lemma_common_fields_pass(common_name, exts, report);
    if other.version == report.version && other.chip_id@ == report.chip_id@
        && other.reported_tcb.bootloader == report.reported_tcb.bootloader
        && other.reported_tcb.tee == report.reported_tcb.tee
        && other.reported_tcb.snp == report.reported_tcb.snp
        && other.reported_tcb.microcode == report.reported_tcb.microcode {
        assert(report_value(other, SnpOid::HwId) == report_value(report, SnpOid::HwId));
        lemma_common_fields_pass(common_name, exts, other);
    }
}

} // verus!
