//! Verification of an SEV-SNP certificate chain and of the attestation
//! reports that its endorsement key signs.
//!
//! The chain is checked root to leaf by three signature checks; a report is
//! checked by comparing its TCB version and chip identity with the
//! extensions of the endorsement key certificate, and by checking its ECDSA
//! signature under that certificate's key.
use vstd::prelude::*;

pub mod attestation;
pub mod cert_type;
pub mod certificate_chain;
pub mod codec;
pub mod extensions;
pub mod locate;
pub mod report;
pub mod signature;
pub mod tcb;
pub mod verify;

verus! {

} // verus!
