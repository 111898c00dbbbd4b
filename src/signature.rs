//! Checking that an attestation report is signed by its endorsement key:
//! an ECDSA signature over the SHA-384 digest of the report's signed part.
use crate::report::{Report, SIG_COMPONENT_LEN, SIGNED_LEN, signed_part};
use vstd::prelude::*;

verus! {

/// The SHA-384 digest of `data`.
pub uninterp spec fn sha384_of(data: Seq<u8>) -> Seq<u8>;

/// Relies on `openssl::sha::sha384`: the 48-byte SHA-384 digest of the data.
#[verifier::external_body]
fn sha384(data: &[u8]) -> (r: [u8; 48])
    ensures
        r@ == sha384_of(data@),
{
    openssl::sha::sha384(data)
}

/// Whether the ECDSA signature with the little-endian components `r` and `s`
/// validates for `digest` under the DER public key `public_key`: `None` when
/// the key or the signature cannot be used.
pub uninterp spec fn ecdsa_verdict(
    public_key: Seq<u8>,
    r: Seq<u8>,
    s: Seq<u8>,
    digest: Seq<u8>,
) -> Option<bool>;

/// Relies on openssl's `EcdsaSig::verify`, with the key read by
/// `PKey::public_key_from_der` and `PKeyRef::ec_key`, and the signature
/// built from its components by sev's `TryFrom<&Signature> for EcdsaSig`.
/// Any error of these is `None`.
#[verifier::external_body]
fn ecdsa_check(
    public_key: &[u8],
    r: &[u8; SIG_COMPONENT_LEN],
    s: &[u8; SIG_COMPONENT_LEN],
    digest: &[u8; 48],
) -> (v: Option<bool>)
    ensures
        v == ecdsa_verdict(public_key@, r@, s@, digest@),
{
    let sig = sev::certs::snp::ecdsa::Signature::new((*r).try_into().ok()?, (*s).try_into().ok()?);
    let sig = openssl::ecdsa::EcdsaSig::try_from(&sig).ok()?;
    let key = openssl::pkey::PKey::public_key_from_der(public_key).ok()?.ec_key().ok()?;
    sig.verify(digest, &key).ok()
}

/// Why a report's signature was refused.
#[derive(Clone, Copy, Debug, PartialEq, Eq, Structural)]
pub enum SignatureError {
    /// The serialised report is shorter than its signed part.
    ReportTooShort,
    /// The key or the signature could not be used.
    VerificationFailed,
    /// The signature was checked and does not match the report.
    Mismatch,
}

/// What a signature check that gave `verdict` means.
pub open spec fn verdict_result(verdict: Option<bool>) -> Result<(), SignatureError> {
    match verdict {
        Some(true) => Ok(()),
        Some(false) => Err(SignatureError::Mismatch),
        None => Err(SignatureError::VerificationFailed),
    }
}

/// What checking the signature of `report` under `public_key` gives.
pub open spec fn signature_result(public_key: Seq<u8>, report: Report) -> Result<
    (),
    SignatureError,
> {
    if report.raw@.len() < SIGNED_LEN {
        Err(SignatureError::ReportTooShort)
    } else {
        verdict_result(
            ecdsa_verdict(
                public_key,
                report.signature_r@,
                report.signature_s@,
                sha384_of(signed_part(report.raw@)),
            ),
        )
    }
}

/// The result of a signature check that gave `verdict`.
pub fn classify_signature(verdict: Option<bool>) -> (r: Result<(), SignatureError>)
    ensures
        r == verdict_result(verdict),
{
    match verdict {
        Some(true) => Ok(()),
        Some(false) => Err(SignatureError::Mismatch),
        None => Err(SignatureError::VerificationFailed),
    }
}

/// Checks the signature of `report` under the DER public key `public_key`:
/// the signature must validate for the SHA-384 digest of bytes `[0, 0x2A0)`
/// of the serialised report.
pub fn verify_attestation_signature(public_key: &[u8], report: &Report) -> (r: Result<
    (),
    SignatureError,
>)
    ensures
        r == signature_result(public_key@, *report),
{
    let signed = match report.signed_bytes() {
        Some(b) => b,
        None => return Err(SignatureError::ReportTooShort),
    };
    let digest = sha384(signed);
    classify_signature(ecdsa_check(public_key, &report.signature_r, &report.signature_s, &digest))
}

} // verus!
