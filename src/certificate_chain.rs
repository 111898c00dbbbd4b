//! The chain of trust: root key, signing key, endorsement key.
//!
//! Three signature checks are made in a fixed order and the first one that
//! fails decides the error. A signature that does not match is told apart
//! from a certificate that cannot be checked at all.
use crate::locate::VekFamily;
use vstd::prelude::*;

verus! {

/// Whether the certificate `signer`'s public key validates the signature of
/// the certificate `signee` (both DER): `None` when the check cannot be made.
pub uninterp spec fn cert_signs(signer: Seq<u8>, signee: Seq<u8>) -> Option<bool>;

/// Relies on openssl: `X509::from_der` to read both certificates,
/// `X509Ref::public_key` for the signer's key and `X509Ref::verify` for the
/// signee's signature. Any error of these is `None`, a signature that does
/// not validate is `Some(false)`.
#[verifier::external_body]
fn signature_check(signer: &[u8], signee: &[u8]) -> (r: Option<bool>)
    ensures
        r == cert_signs(signer@, signee@),
{
    let signer = openssl::x509::X509::from_der(signer).ok()?;
    let signee = openssl::x509::X509::from_der(signee).ok()?;
    let key = signer.public_key().ok()?;
    signee.verify(&key).ok()
}

/// The three checks of the chain, in the order in which they are made.
#[derive(Clone, Copy, Debug, PartialEq, Eq, Structural)]
pub enum ChainStep {
    /// The root signs itself.
    ArkSelfSigned,
    /// The root signs the signing key.
    SignerByArk,
    /// The signing key signs the endorsement key.
    VekBySigner,
}

/// Why a chain was refused.
#[derive(Clone, Copy, Debug, PartialEq, Eq, Structural)]
pub enum ChainError {
    /// The signature of this step does not validate.
    NotSigned(ChainStep),
    /// This step could not be checked: a certificate is malformed or uses an
    /// algorithm that is not supported.
    Malformed(ChainStep),
}

/// What validating a chain is asked for with.
#[derive(Clone, Debug)]
pub struct Args {
    /// The directory that holds the chain's certificates.
    pub certs_dir: String,
}

/// The certificates of a chain, each in DER.
#[derive(Clone, Debug)]
pub struct TrustChain {
    pub ark: Vec<u8>,
    pub signer: Vec<u8>,
    pub vek: Vec<u8>,
    /// Which family the signing and endorsement keys belong to.
    pub family: VekFamily,
}

/// What one check gives, from the outcome of the signature check.
pub open spec fn step_result(step: ChainStep, outcome: Option<bool>) -> Result<(), ChainError> {
    match outcome {
        Some(true) => Ok(()),
        Some(false) => Err(ChainError::NotSigned(step)),
        None => Err(ChainError::Malformed(step)),
    }
}

/// What checking the chain `ark`, `signer`, `vek` gives: the first failing
/// step, or success when all three pass.
pub open spec fn chain_result(ark: Seq<u8>, signer: Seq<u8>, vek: Seq<u8>) -> Result<
    (),
    ChainError,
> {
    match step_result(ChainStep::ArkSelfSigned, cert_signs(ark, ark)) {
        Err(e) => Err(e),
        Ok(_) => match step_result(ChainStep::SignerByArk, cert_signs(ark, signer)) {
            Err(e) => Err(e),
            Ok(_) => step_result(ChainStep::VekBySigner, cert_signs(signer, vek)),
        },
    }
}

/// The result of the check `step` whose signature check gave `outcome`.
pub fn classify_check(step: ChainStep, outcome: Option<bool>) -> (r: Result<(), ChainError>)
    ensures
        r == step_result(step, outcome),
{
    match outcome {
        Some(true) => Ok(()),
        Some(false) => Err(ChainError::NotSigned(step)),
        None => Err(ChainError::Malformed(step)),
    }
}

/// Checks that the root signs itself, that the root signs the signing key
/// and that the signing key signs the endorsement key, stopping at the first
/// check that fails.
pub fn verify_chain(chain: &TrustChain) -> (r: Result<(), ChainError>)
    ensures
        r == chain_result(chain.ark@, chain.signer@, chain.vek@),
{
    let ark = chain.ark.as_slice();
    let signer = chain.signer.as_slice();
    let vek = chain.vek.as_slice();
    classify_check(ChainStep::ArkSelfSigned, signature_check(ark, ark))?;
    classify_check(ChainStep::SignerByArk, signature_check(ark, signer))?;
    classify_check(ChainStep::VekBySigner, signature_check(signer, vek))
}

/// A chain whose three signatures all validate is accepted.
pub proof fn lemma_valid_chain_accepted(ark: Seq<u8>, signer: Seq<u8>, vek: Seq<u8>)
    requires
        cert_signs(ark, ark) == Some(true),
        cert_signs(ark, signer) == Some(true),
        cert_signs(signer, vek) == Some(true),
    ensures
        chain_result(ark, signer, vek) == Ok::<(), ChainError>(()),
{
}

/// A root that does not sign itself is refused as such, not as malformed.
pub proof fn lemma_root_not_self_signed(ark: Seq<u8>, signer: Seq<u8>, vek: Seq<u8>)
    requires
        cert_signs(ark, ark) == Some(false),
    ensures
        chain_result(ark, signer, vek) == Err::<(), ChainError>(
            ChainError::NotSigned(ChainStep::ArkSelfSigned),
        ),
{
}

/// Under a root that signs itself, a signing key whose signature does not
/// validate against the root's key is refused as not signed by the root.
pub proof fn lemma_signer_not_signed_by_root(ark: Seq<u8>, signer: Seq<u8>, vek: Seq<u8>)
    requires
        cert_signs(ark, ark) == Some(true),
        cert_signs(ark, signer) == Some(false),
    ensures
        chain_result(ark, signer, vek) == Err::<(), ChainError>(
            ChainError::NotSigned(ChainStep::SignerByArk),
        ),
{
}

} // verus!
