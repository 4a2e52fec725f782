use secure_channel::{decrypt, derive_shared_secret, encrypt, generate_keypair, ChannelError};

// Diffie-Hellman test vector from RFC 7748, section 6.1.
const ALICE_PRIVATE: &str = "77076d0a7318a57d3c16c17251b26645df4c2f87ebc0992ab177fba51db92c2a";
const ALICE_PUBLIC: &str = "8520f0098930a754748b7ddcb43ef75a0dbf3a0d26381af4eba4a98eaa9b4e6a";
const BOB_PRIVATE: &str = "5dab087e624a8a4b79e17f8b83800ee66f3bb1292618b6fd1c2f8b27ff88e0eb";
const BOB_PUBLIC: &str = "de9edb7d7b7dc1b4d35b61c2ece435373f8343c85b78674dadfc7e146f882b4f";
const SHARED: &str = "4a5d9d5ba4ce2de1728e3bf480350f25e07e21c947d19e3376f09b3c1e161742";

#[test]
fn keypair_strings_are_hex_of_32_bytes() {
    let (secret_hex, public_hex) = generate_keypair();
    assert_eq!(secret_hex.len(), 64);
    assert_eq!(public_hex.len(), 64);
    assert!(secret_hex.chars().all(|c| c.is_ascii_hexdigit()));
    assert!(public_hex.chars().all(|c| c.is_ascii_hexdigit()));
    assert_ne!(secret_hex, public_hex);
}

#[test]
fn derive_matches_rfc7748_vector_as_text() {
    assert_eq!(derive_shared_secret(ALICE_PRIVATE, BOB_PUBLIC).unwrap(), SHARED);
    assert_eq!(derive_shared_secret(BOB_PRIVATE, ALICE_PUBLIC).unwrap(), SHARED);
}

#[test]
fn derive_rejects_malformed_inputs() {
    assert_eq!(
        derive_shared_secret("not hex at all!", BOB_PUBLIC),
        Err(ChannelError::InvalidHex)
    );
    assert_eq!(
        derive_shared_secret(ALICE_PRIVATE, "abc"),
        Err(ChannelError::InvalidHex)
    );
    // Well-formed hexadecimal, but not 32 bytes.
    assert_eq!(
        derive_shared_secret("00ff", BOB_PUBLIC),
        Err(ChannelError::InvalidKeyLength)
    );
    assert_eq!(
        derive_shared_secret(ALICE_PRIVATE, &ALICE_PUBLIC[..62]),
        Err(ChannelError::InvalidKeyLength)
    );
}

#[test]
fn encrypt_then_decrypt_round_trips_text() {
    let (ct_hex, nonce_hex) = encrypt(SHARED, "hello").unwrap();
    assert_eq!(nonce_hex.len(), 24);
    assert_eq!(ct_hex.len(), 2 * (5 + 16));
    assert_eq!(decrypt(SHARED, &ct_hex, &nonce_hex).unwrap(), "hello");
}

#[test]
fn encrypt_rejects_malformed_secret() {
    assert_eq!(encrypt("xyz", "hello"), Err(ChannelError::InvalidHex));
    assert_eq!(encrypt("00ff", "hello"), Err(ChannelError::InvalidKeyLength));
}

#[test]
fn decrypt_rejects_malformed_inputs() {
    let (ct_hex, nonce_hex) = encrypt(SHARED, "hello").unwrap();
    assert_eq!(
        decrypt("xyz", &ct_hex, &nonce_hex),
        Err(ChannelError::InvalidHex)
    );
    assert_eq!(
        decrypt(SHARED, "0g", &nonce_hex),
        Err(ChannelError::InvalidHex)
    );
    assert_eq!(
        decrypt(SHARED, &ct_hex, "abc"),
        Err(ChannelError::InvalidHex)
    );
    assert_eq!(
        decrypt("00ff", &ct_hex, &nonce_hex),
        Err(ChannelError::InvalidKeyLength)
    );
    assert_eq!(
        decrypt(SHARED, &ct_hex, "00ff"),
        Err(ChannelError::InvalidNonceLength)
    );
}

#[test]
fn decrypt_detects_tampered_text() {
    let (ct_hex, nonce_hex) = encrypt(SHARED, "hello").unwrap();
    // Change one hexadecimal digit of the ciphertext.
    let mut chars: Vec<char> = ct_hex.chars().collect();
    chars[0] = if chars[0] == '0' { '1' } else { '0' };
    let tampered: String = chars.into_iter().collect();
    assert_eq!(
        decrypt(SHARED, &tampered, &nonce_hex),
        Err(ChannelError::AuthenticationFailure)
    );
}

#[test]
fn decrypt_with_unrelated_secret_fails() {
    let (ct_hex, nonce_hex) = encrypt(SHARED, "hello").unwrap();
    let other = "00000000000000000000000000000000000000000000000000000000000000ff";
    assert_eq!(
        decrypt(other, &ct_hex, &nonce_hex),
        Err(ChannelError::AuthenticationFailure)
    );
}

#[test]
fn decrypt_reports_invalid_utf8() {
    // Seal bytes that are not valid UTF-8 through the byte-level core, then
    // hand them to the text layer.
    let secret = secure_channel::utils::from_hex(SHARED).unwrap();
    let (ciphertext, nonce) =
        secure_channel::crypto::encrypt(&secret, &[0xff, 0xfe, 0x00, 0x80]).unwrap();
    let ct_hex = secure_channel::utils::to_hex(&ciphertext);
    let nonce_hex = secure_channel::utils::to_hex(&nonce);
    assert_eq!(
        decrypt(SHARED, &ct_hex, &nonce_hex),
        Err(ChannelError::InvalidUtf8)
    );
}

#[test]
fn full_scenario_as_text() {
    let (a_private, a_public) = generate_keypair();
    let (b_private, b_public) = generate_keypair();
    let shared_a = derive_shared_secret(&a_private, &b_public).unwrap();
    let shared_b = derive_shared_secret(&b_private, &a_public).unwrap();
    assert_eq!(shared_a, shared_b);
    let (ct_hex, nonce_hex) = encrypt(&shared_a, "hello").unwrap();
    assert_eq!(decrypt(&shared_b, &ct_hex, &nonce_hex).unwrap(), "hello");
}

#[test]
fn unicode_plaintext_round_trips() {
    let msg = "grüße, 世界 — ¡hola! 🌍";
    let (ct_hex, nonce_hex) = encrypt(SHARED, msg).unwrap();
    assert_eq!(decrypt(SHARED, &ct_hex, &nonce_hex).unwrap(), msg);
}
