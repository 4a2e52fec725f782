use secure_channel::utils::{from_hex, to_hex, FromHexError};

#[test]
fn to_hex_known_values() {
    assert_eq!(to_hex(&[]), "");
    assert_eq!(to_hex(&[0x00]), "00");
    assert_eq!(to_hex(&[0x00, 0xff, 0x1a]), "00ff1a");
    assert_eq!(to_hex(&[0xde, 0xad, 0xbe, 0xef]), "deadbeef");
    assert_eq!(to_hex(&[1, 2, 3, 4, 5, 6, 7, 8, 9]), "010203040506070809");
}

#[test]
fn from_hex_known_values() {
    assert_eq!(from_hex(""), Ok(vec![]));
    assert_eq!(from_hex("00ff1a"), Ok(vec![0x00, 0xff, 0x1a]));
    assert_eq!(from_hex("deadbeef"), Ok(vec![0xde, 0xad, 0xbe, 0xef]));
}

#[test]
fn from_hex_accepts_uppercase_and_mixed_case() {
    assert_eq!(from_hex("DEADBEEF"), Ok(vec![0xde, 0xad, 0xbe, 0xef]));
    assert_eq!(from_hex("DeAdBeEf"), Ok(vec![0xde, 0xad, 0xbe, 0xef]));
    assert_eq!(from_hex("0123456789abcdefABCDEF"), from_hex("0123456789abcdefabcdef"));
}

#[test]
fn from_hex_odd_length_is_rejected() {
    assert_eq!(from_hex("a"), Err(FromHexError::OddLength));
    assert_eq!(from_hex("abc"), Err(FromHexError::OddLength));
}

#[test]
fn from_hex_reports_first_invalid_character() {
    assert_eq!(
        from_hex("0g"),
        Err(FromHexError::InvalidHexCharacter { c: 'g', index: 1 })
    );
    assert_eq!(
        from_hex("zz00"),
        Err(FromHexError::InvalidHexCharacter { c: 'z', index: 0 })
    );
    assert_eq!(
        from_hex("00ff!a"),
        Err(FromHexError::InvalidHexCharacter { c: '!', index: 4 })
    );
}

#[test]
fn hex_round_trip_on_all_byte_values() {
    let bytes: Vec<u8> = (0..=255u8).collect();
    let encoded = to_hex(&bytes);
    assert_eq!(encoded.len(), 512);
    assert_eq!(from_hex(&encoded), Ok(bytes));
}

#[test]
fn to_hex_matches_reference_encoder() {
    let samples: Vec<Vec<u8>> = vec![
        vec![],
        vec![0],
        vec![255],
        vec![1, 35, 69, 103, 137, 171, 205, 239],
        (0..=255u8).collect(),
    ];
    for bytes in samples {
        assert_eq!(to_hex(&bytes), hex::encode(&bytes));
    }
}

#[test]
fn from_hex_matches_reference_decoder() {
    for s in ["", "00", "00ff1a", "DEADBEEF", "0123456789abcdef"] {
        assert_eq!(from_hex(s).unwrap(), hex::decode(s).unwrap());
    }
    // Both decoders reject these, each with its own error type.
    for s in ["a", "0g", "hello"] {
        assert!(from_hex(s).is_err());
        assert!(hex::decode(s).is_err());
    }
}
