use snpguest::codec::{check_cert_bytes, EncodingError};

fn octet_string(content: &[u8]) -> Vec<u8> {
    let mut v = vec![0x04, content.len() as u8];
    v.extend_from_slice(content);
    v
}

fn id_bytes() -> Vec<u8> {
    (0..64u32).map(|i| (i * 7 + 0x11) as u8).collect()
}

#[test]
fn integer_matches_its_own_byte() {
    for v in [0u8, 1, 0x1E, 0x7F, 0xFF] {
        assert_eq!(check_cert_bytes(&[0x02, 0x01, v], &[v]), Ok(true));
    }
}

#[test]
fn integer_differs_from_any_other_byte() {
    let v = 0x1Eu8;
    for w in 0..=255u8 {
        assert_eq!(check_cert_bytes(&[0x02, 0x01, v], &[w]), Ok(v == w));
    }
}

#[test]
fn two_byte_integer_compares_last_byte() {
    assert_eq!(check_cert_bytes(&[0x02, 0x02, 0x00, 0xD1], &[0xD1]), Ok(true));
    assert_eq!(check_cert_bytes(&[0x02, 0x02, 0x00, 0xD1], &[0x00]), Ok(false));
}

#[test]
fn integer_with_bad_length_byte_is_error() {
    assert_eq!(
        check_cert_bytes(&[0x02, 0x03, 0x00, 0x00, 0x01], &[1]),
        Err(EncodingError::InvalidOctetLength)
    );
    assert_eq!(check_cert_bytes(&[0x02], &[1]), Err(EncodingError::InvalidOctetLength));
}

#[test]
fn integer_against_empty_expected_is_error() {
    assert_eq!(check_cert_bytes(&[0x02, 0x01, 0x05], &[]), Err(EncodingError::InvalidExpectedLength));
}

#[test]
fn octet_string_equal_and_unequal() {
    let id = id_bytes();
    let ext = octet_string(&id);
    assert_eq!(check_cert_bytes(&ext, &id), Ok(true));
    let mut other = id.clone();
    other[63] ^= 0x80;
    assert_eq!(check_cert_bytes(&ext, &other), Ok(false));
}

#[test]
fn octet_string_wrong_sizes_are_errors() {
    let id = id_bytes();
    // length byte says 63
    let short = octet_string(&id[..63]);
    assert_eq!(check_cert_bytes(&short, &id), Err(EncodingError::InvalidOctetLength));
    // length byte says 64 but only 63 content bytes follow
    let mut truncated = vec![0x04, 0x40];
    truncated.extend_from_slice(&id[..63]);
    assert_eq!(check_cert_bytes(&truncated, &id), Err(EncodingError::InvalidContentSize));
    // expected value of the wrong size
    let ext = octet_string(&id);
    assert_eq!(check_cert_bytes(&ext, &id[..32]), Err(EncodingError::InvalidExpectedLength));
}

#[test]
fn legacy_value_matches_itself_only() {
    let id = id_bytes();
    assert_ne!(id[0], 0x02);
    assert_ne!(id[0], 0x04);
    assert_eq!(check_cert_bytes(&id, &id), Ok(true));
    for i in 0..64 {
        for bit in 0..8 {
            let mut flipped = id.clone();
            flipped[i] ^= 1 << bit;
            assert_eq!(check_cert_bytes(&id, &flipped), Ok(false));
        }
    }
}

#[test]
fn legacy_value_of_wrong_size_is_error() {
    let id = id_bytes();
    assert_eq!(check_cert_bytes(&id[..63], &id[..63]), Err(EncodingError::InvalidType));
    assert_eq!(check_cert_bytes(&id, &id[..63]), Err(EncodingError::InvalidType));
}

#[test]
fn empty_extension_is_error() {
    assert_eq!(check_cert_bytes(&[], &[1]), Err(EncodingError::Empty));
}
