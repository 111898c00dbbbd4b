//! Verification of an attestation report against its endorsement key
//! certificate: the TCB comparison, then the signature check.
use crate::extensions::{CertFields, x509_fields};
use crate::report::{ProcType, Report, SIGNED_LEN, signed_part};
use crate::signature::{
    SignatureError,
    ecdsa_verdict,
    sha384_of,
    signature_result,
    verify_attestation_signature,
};
use crate::tcb::{
    TcbError,
    common_fields_agree,
    lemma_common_fields_pass,
    tcb_result,
    verify_attestation_tcb,
};
use vstd::prelude::*;

verus! {

/// What verifying a report is asked for with.
#[derive(Clone, Debug)]
pub struct Args {
    /// The directory that holds the endorsement key certificate.
    pub certs_dir: String,
    /// The file that holds the report.
    pub att_report_path: String,
    /// The processor generation; when absent it is read from the report.
    pub processor_model: Option<ProcType>,
    /// Only the TCB comparison is asked for.
    pub tcb: bool,
    /// Only the signature check is asked for.
    pub signature: bool,
}

/// Which checks to run.
#[derive(Clone, Copy, Debug, PartialEq, Eq, Structural)]
pub enum Mode {
    TcbOnly,
    SignatureOnly,
    Both,
}

/// The checks that the flags `tcb` and `signature` ask for: each one alone
/// asks for its own check, neither or both for the two.
pub open spec fn mode_of(tcb: bool, signature: bool) -> Mode {
    if tcb && !signature {
        Mode::TcbOnly
    } else if signature && !tcb {
        Mode::SignatureOnly
    } else {
        Mode::Both
    }
}

/// The checks that the flags `tcb` and `signature` ask for.
pub fn select_mode(tcb: bool, signature: bool) -> (r: Mode)
    ensures
        r == mode_of(tcb, signature),
{
    if tcb && !signature {
        Mode::TcbOnly
    } else if signature && !tcb {
        Mode::SignatureOnly
    } else {
        Mode::Both
    }
}

/// Why a report was refused.
#[derive(Clone, Copy, Debug, PartialEq, Eq, Structural)]
pub enum AttestationError {
    /// The endorsement key certificate could not be read.
    UnreadableCertificate,
    /// The TCB comparison failed.
    Tcb(TcbError),
    /// The signature check failed.
    Signature(SignatureError),
}

/// What verifying `report` against the DER certificate `vek` gives: the TCB
/// comparison first, unless only the signature is asked for, then the
/// signature check, unless only the TCB is asked for.
pub open spec fn attestation_result(
    vek: Seq<u8>,
    report: Report,
    proc_model: ProcType,
    mode: Mode,
) -> Result<(), AttestationError> {
    match x509_fields(vek) {
        None => Err(AttestationError::UnreadableCertificate),
        Some((common_name, exts, public_key)) => {
            let tcb = if mode != Mode::SignatureOnly {
                tcb_result(common_name, exts, report, proc_model)
            } else {
                Ok(())
            };
            match tcb {
                Err(e) => Err(AttestationError::Tcb(e)),
                Ok(_) => if mode != Mode::TcbOnly {
                    match signature_result(public_key, report) {
                        Err(e) => Err(AttestationError::Signature(e)),
                        Ok(_) => Ok(()),
                    }
                } else {
                    Ok(())
                },
            }
        },
    }
}

/// Verifies `report` against the endorsement key certificate `vek` (DER)
/// for the processor generation `proc_model`, running the checks that
/// `mode` asks for and stopping at the first that fails.
pub fn verify_report(vek: &[u8], report: &Report, proc_model: ProcType, mode: Mode) -> (r: Result<
    (),
    AttestationError,
>)
    ensures
        r == attestation_result(vek@, *report, proc_model, mode),
{
    let cert = match CertFields::from_der(vek) {
        Some(c) => c,
        None => return Err(AttestationError::UnreadableCertificate),
    };
    if mode != Mode::SignatureOnly {
        if let Err(e) = verify_attestation_tcb(&cert, report, proc_model) {
            return Err(AttestationError::Tcb(e));
        }
    }
    if mode != Mode::TcbOnly {
        if let Err(e) = verify_attestation_signature(cert.public_key.as_slice(), report) {
            return Err(AttestationError::Signature(e));
        }
    }
    Ok(())
}

/// A readable endorsement key certificate whose TCB extensions all agree
/// with the report, for a generation before the newest, and a report signed by
/// the certificate's key over its signed part: verifying with both checks
/// succeeds.
pub proof fn lemma_matching_report_accepted(
    vek: Seq<u8>,
    common_name: Option<Seq<char>>,
    exts: Seq<(Seq<u8>, Seq<u8>)>,
    public_key: Seq<u8>,
    report: Report,
    proc_model: ProcType,
)
    requires
        x509_fields(vek) == Some((common_name, exts, public_key)),
        common_fields_agree(common_name, exts, report),
        proc_model != ProcType::Turin,
        report.raw@.len() >= SIGNED_LEN,
        ecdsa_verdict(
            public_key,
            report.signature_r@,
            report.signature_s@,
            sha384_of(signed_part(report.raw@)),
        ) == Some(true),
    ensures
        attestation_result(vek, report, proc_model, Mode::Both) == Ok::<(), AttestationError>(()),
{
    lemma_common_fields_pass(common_name, exts, report);
}

} // verus!
