use secure_passage::crypto::{SessionKey, SessionKeyError};

#[test]
fn roundtrip() {
    let key = SessionKey::generate();
    let enc = key.encrypt(b"hello secure passage").unwrap();
    let dec = key.decrypt(&enc).unwrap();
    assert_eq!(dec, b"hello secure passage");
    let parsed = SessionKey::from_base64(&key.to_base64()).unwrap();
    assert_eq!(parsed.decrypt(&enc).unwrap(), b"hello secure passage");
}

#[test]
fn zero_key_text_is_43_letters_a() {
    let key = SessionKey::from_bytes([0u8; 32]);
    assert_eq!(key.to_base64(), "A".repeat(43));
}

#[test]
fn key_text_uses_url_safe_alphabet() {
    let key = SessionKey::from_bytes([0xff; 32]);
    assert_eq!(key.to_base64(), format!("{}8", "_".repeat(42)));
    let key = SessionKey::from_bytes([0xfb; 32]);
    assert!(key.to_base64().starts_with("-_v7"));
}

#[test]
fn from_base64_ignores_surrounding_white_space() {
    let key = SessionKey::from_bytes([7u8; 32]);
    let text = format!("  \t{}\n ", key.to_base64());
    let parsed = SessionKey::from_base64(&text).unwrap();
    assert_eq!(parsed.to_base64(), key.to_base64());
}

#[test]
fn from_base64_rejects_bad_text() {
    assert_eq!(
        SessionKey::from_base64("not base64!").err(),
        Some(SessionKeyError::InvalidEncoding)
    );
    // Padding is refused by the unpadded engine.
    let padded = format!("{}=", SessionKey::from_bytes([1u8; 32]).to_base64());
    assert_eq!(SessionKey::from_base64(&padded).err(), Some(SessionKeyError::InvalidEncoding));
}

#[test]
fn from_base64_rejects_wrong_length() {
    // 16 bytes of zeros
    assert_eq!(
        SessionKey::from_base64("AAAAAAAAAAAAAAAAAAAAAA").err(),
        Some(SessionKeyError::InvalidLength)
    );
    assert_eq!(SessionKey::from_base64("").err(), Some(SessionKeyError::InvalidLength));
}

#[test]
fn encrypt_output_is_nonce_then_ciphertext_and_tag() {
    let key = SessionKey::generate();
    let enc = key.encrypt(b"abc").unwrap();
    assert_eq!(enc.len(), 12 + 3 + 16);
    let empty = key.encrypt(b"").unwrap();
    assert_eq!(empty.len(), 28);
    assert_eq!(key.decrypt(&empty).unwrap(), Vec::<u8>::new());
}

#[test]
fn encrypt_with_nonce_matches_gcm_test_vectors() {
    // NIST GCM test cases 13 and 14: zero key, zero nonce.
    let key = SessionKey::from_bytes([0u8; 32]);
    let nonce = [0u8; 12];
    let empty = key.encrypt_with_nonce(&nonce, b"").unwrap();
    assert_eq!(hex::encode(&empty[12..]), "530f8afbc74536b9a963b4f1c4cb738b");
    let block = key.encrypt_with_nonce(&nonce, &[0u8; 16]).unwrap();
    assert_eq!(&block[..12], &nonce);
    assert_eq!(
        hex::encode(&block[12..]),
        "cea7403d4d606b6e074ec5d3baf39d18d0d1c8a799996bf0265b98b5d48ab919"
    );
}

#[test]
fn decrypt_rejects_short_input() {
    let key = SessionKey::generate();
    assert_eq!(key.decrypt(&[0u8; 12]).err(), Some(SessionKeyError::Decrypt));
    assert_eq!(key.decrypt(&[]).err(), Some(SessionKeyError::Decrypt));
    assert_eq!(key.decrypt(&[0u8; 13]).err(), Some(SessionKeyError::Decrypt));
}

#[test]
fn decrypt_rejects_tampering_and_wrong_key() {
    let key = SessionKey::generate();
    let mut enc = key.encrypt(b"secret").unwrap();
    let other = SessionKey::generate();
    assert_eq!(other.decrypt(&enc).err(), Some(SessionKeyError::Decrypt));
    let last = enc.len() - 1;
    enc[last] ^= 1;
    assert_eq!(key.decrypt(&enc).err(), Some(SessionKeyError::Decrypt));
}

#[test]
fn fresh_nonces_differ() {
    let key = SessionKey::generate();
    let a = key.encrypt(b"same").unwrap();
    let b = key.encrypt(b"same").unwrap();
    assert_ne!(a, b);
}
