//! The values of an attestation report that verification reads.
use vstd::prelude::*;

verus! {

/// Size of each signature component, little-endian, as the report holds it.
pub const SIG_COMPONENT_LEN: usize = 72;

/// End of the signed part of the serialised report: bytes `[0, 0x2A0)`.
pub const SIGNED_LEN: usize = 0x2A0;

/// The processor generations that reports come from.
#[derive(Clone, Copy, Debug, PartialEq, Eq, Structural)]
pub enum ProcType {
    Milan,
    Genoa,
    Bergamo,
    Siena,
    Turin,
}

/// The TCB version that the report states.
#[derive(Clone, Copy, Debug, PartialEq, Eq, Structural)]
pub struct TcbVersion {
    pub bootloader: u8,
    pub tee: u8,
    pub snp: u8,
    pub microcode: u8,
    /// Present only in reports of the newest generation.
    pub fmc: Option<u8>,
}

/// An attestation report.
#[derive(Clone, Debug)]
pub struct Report {
    pub version: u32,
    pub reported_tcb: TcbVersion,
    /// The 64-byte identity of the chip.
    pub chip_id: Vec<u8>,
    /// The `r` component of the ECDSA signature, little-endian.
    pub signature_r: [u8; SIG_COMPONENT_LEN],
    /// The `s` component of the ECDSA signature, little-endian.
    pub signature_s: [u8; SIG_COMPONENT_LEN],
    /// The whole report in its canonical serialised form.
    pub raw: Vec<u8>,
}

/// The part of the serialised report that its signature covers.
pub open spec fn signed_part(raw: Seq<u8>) -> Seq<u8> {
    raw.subrange(0, SIGNED_LEN as int)
}

impl Report {
    /// The part of the serialised report that its signature covers, or `None`
    /// when the report is too short to hold it.
    pub fn signed_bytes(&self) -> (r: Option<&[u8]>)
        ensures
            match r {
                Some(b) => self.raw@.len() >= SIGNED_LEN && b@ == signed_part(self.raw@),
                None => self.raw@.len() < SIGNED_LEN,
            },
    {
        if self.raw.len() < SIGNED_LEN {
            None
        } else {
            Some(vstd::slice::slice_subrange(self.raw.as_slice(), 0, SIGNED_LEN))
        }
    }
}

} // verus!
