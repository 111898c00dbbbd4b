//! Decoding of TCB and chip-identity values held in certificate extensions.
//!
//! An extension value comes in one of three shapes, told apart by its first
//! byte: a DER INTEGER (`0x02`), a DER OCTET STRING (`0x04`) of 64 bytes, or
//! the legacy form, 64 raw bytes with no tag at all.
use vstd::prelude::*;

verus! {

/// DER tag of an INTEGER.
pub const TAG_INTEGER: u8 = 0x02;

/// DER tag of an OCTET STRING.
pub const TAG_OCTET_STRING: u8 = 0x04;

/// Size of a chip identity, and of the OCTET STRING and legacy forms.
pub const ID_LEN: usize = 0x40;

/// Why an extension value could not be decoded.
#[derive(Clone, Copy, Debug, PartialEq, Eq, Structural)]
pub enum EncodingError {
    /// The extension value holds no byte at all.
    Empty,
    /// The length byte of an INTEGER or OCTET STRING is missing or not allowed.
    InvalidOctetLength,
    /// An OCTET STRING whose content is not exactly 64 bytes long.
    InvalidContentSize,
    /// The value from the report does not have the size that the encoding asks for.
    InvalidExpectedLength,
    /// An untagged value that is not 64 bytes long.
    InvalidType,
}

/// What comparing the extension value `ext` with the report value `expected` gives.
pub open spec fn decode_compare(ext: Seq<u8>, expected: Seq<u8>) -> Result<bool, EncodingError> {
    if ext.len() == 0 {
        Err(EncodingError::Empty)
    } else if ext[0] == TAG_INTEGER {
        if ext.len() < 2 || (ext[1] != 1 && ext[1] != 2) {
            Err(EncodingError::InvalidOctetLength)
        } else if expected.len() == 0 {
            Err(EncodingError::InvalidExpectedLength)
        } else {
            Ok(ext.last() == expected[0])
        }
    } else if ext[0] == TAG_OCTET_STRING {
        if ext.len() < 2 || ext[1] != ID_LEN {
            Err(EncodingError::InvalidOctetLength)
        } else if ext.len() - 2 != ID_LEN {
            Err(EncodingError::InvalidContentSize)
        } else if expected.len() != ID_LEN {
            Err(EncodingError::InvalidExpectedLength)
        } else {
            Ok(ext.subrange(2, ext.len() as int) == expected)
        }
    } else if ext.len() == ID_LEN && expected.len() == ID_LEN {
        Ok(ext == expected)
    } else {
        Err(EncodingError::InvalidType)
    }
}

fn bytes_equal(a: &[u8], a_start: usize, b: &[u8]) -> (r: bool)
    requires
        a_start <= a@.len(),
    ensures
        r == (a@.subrange(a_start as int, a@.len() as int) == b@),
{
    if a.len() - a_start != b.len() {
        assert(a@.subrange(a_start as int, a@.len() as int).len() != b@.len());
        return false;
    }
    let mut i: usize = 0;
    while i < b.len()
        invariant
            a_start <= a@.len(),
            a@.len() - a_start == b@.len(),
            a_start + b.len() == a.len(),
            0 <= i <= b@.len(),
            forall|j: int| 0 <= j < i ==> a@[a_start + j] == b@[j],
        decreases b@.len() - i,
    {
        if a[a_start + i] != b[i] {
            assert(a@.subrange(a_start as int, a@.len() as int)[i as int] != b@[i as int]);
            return false;
        }
        i = i + 1;
    }
    assert(a@.subrange(a_start as int, a@.len() as int) =~= b@);
    true
}

/// Compares the certificate extension value `ext` with the little-endian
/// value `expected` that the report holds.
///
/// An INTEGER is compared by its last byte with the first byte of `expected`;
/// an OCTET STRING or a legacy value, byte for byte with a 64-byte `expected`.
/// A value of no recognised shape is an error, never a mismatch.
pub fn check_cert_bytes(ext: &[u8], expected: &[u8]) -> (r: Result<bool, EncodingError>)
    ensures
        r == decode_compare(ext@, expected@),
{
    if ext.len() == 0 {
        return Err(EncodingError::Empty);
    }
    if ext[0] == TAG_INTEGER {
        if ext.len() < 2 || (ext[1] != 1 && ext[1] != 2) {
            Err(EncodingError::InvalidOctetLength)
        } else if expected.len() == 0 {
            Err(EncodingError::InvalidExpectedLength)
        } else {
            Ok(ext[ext.len() - 1] == expected[0])
        }
    } else if ext[0] == TAG_OCTET_STRING {
        if ext.len() < 2 || ext[1] as usize != ID_LEN {
            Err(EncodingError::InvalidOctetLength)
        } else if ext.len() - 2 != ID_LEN {
            Err(EncodingError::InvalidContentSize)
        } else if expected.len() != ID_LEN {
            Err(EncodingError::InvalidExpectedLength)
        } else {
            Ok(bytes_equal(ext, 2, expected))
        }
    } else if ext.len() == ID_LEN && expected.len() == ID_LEN {
        let r = bytes_equal(ext, 0, expected);
        assert(ext@.subrange(0, ext@.len() as int) =~= ext@);
        Ok(r)
    } else {
        Err(EncodingError::InvalidType)
    }
}

/// A one-byte INTEGER holding `v` matches the report byte `v`, and no other.
pub proof fn lemma_integer_round_trip(v: u8, w: u8)
    ensures
        decode_compare(seq![TAG_INTEGER, 1u8, v], seq![v]) == Ok::<bool, EncodingError>(true),
        decode_compare(seq![TAG_INTEGER, 1u8, v], seq![w]) == Ok::<bool, EncodingError>(v == w),
{
}

/// A 64-byte OCTET STRING matches exactly the 64-byte report value equal to
/// its content; a length byte other than 64, or a content or a report value
/// of any other size, is an error.
pub proof fn lemma_octet_string(content: Seq<u8>, expected: Seq<u8>, len_byte: u8)
    ensures
        len_byte != ID_LEN ==> decode_compare(
            seq![TAG_OCTET_STRING, len_byte] + content,
            expected,
        ) is Err,
        content.len() == ID_LEN && expected.len() == ID_LEN ==> decode_compare(
            seq![TAG_OCTET_STRING, ID_LEN as u8] + content,
            expected,
        ) == Ok::<bool, EncodingError>(content == expected),
        content.len() != ID_LEN ==> decode_compare(
            seq![TAG_OCTET_STRING, ID_LEN as u8] + content,
            expected,
        ) is Err,
        expected.len() != ID_LEN ==> decode_compare(
            seq![TAG_OCTET_STRING, ID_LEN as u8] + content,
            expected,
        ) is Err,
{
    let other = seq![TAG_OCTET_STRING, len_byte] + content;
    assert(other[0] == TAG_OCTET_STRING);
    assert(other[1] == len_byte);
    let ext = seq![TAG_OCTET_STRING, ID_LEN as u8] + content;
    assert(ext[0] == TAG_OCTET_STRING);
    assert(ext[1] == ID_LEN as u8);
    assert(ext.subrange(2, ext.len() as int) =~= content);
}

/// A legacy 64-byte value matches itself and no copy of it with one bit flipped.
pub proof fn lemma_legacy_bit_flip(ext: Seq<u8>, i: int, bit: u8)
    requires
        ext.len() == ID_LEN,
        ext[0] != TAG_INTEGER,
        ext[0] != TAG_OCTET_STRING,
        0 <= i < ID_LEN,
        bit < 8,
    ensures
        decode_compare(ext, ext) == Ok::<bool, EncodingError>(true),
        decode_compare(ext, ext.update(i, ext[i] ^ (1u8 << bit))) == Ok::<bool, EncodingError>(
            false,
        ),
{
    let b = ext[i];
    assert(b ^ (1u8 << bit) != b) by (bit_vector)
        requires
            bit < 8,
    ;
    assert(ext.update(i, ext[i] ^ (1u8 << bit))[i] != ext[i]);
}

} // verus!
