use base64::Engine;
use rcli::{
    process_text_decrypt, process_text_encrypt, process_text_generate_key, process_text_sign,
    process_text_verify, CryptoError, TextSignFormat,
};

const KEY: &str = "eyW2pW29DLaVHe8N3@^Ve?*k@sbEgNFq";

#[test]
fn test_process_text_encrypt_decrypt() {
    let plain_text = "hello world";
    let result = process_text_encrypt(plain_text).unwrap();
    let decrypt_text = process_text_decrypt(
        &result.ciphertext_base64,
        &result.key_base64,
        &result.nonce_base64,
    )
    .unwrap();
    assert_eq!(plain_text, decrypt_text);
}

#[test]
fn test_process_text_sign_verify_blake3() {
    let data = "hello world";
    let key = "eyW2pW29DLaVHe8N3@^Ve?*k@sbEgNFq";
    let signed = process_text_sign(data, key, TextSignFormat::Blake3).unwrap();
    let is_ok = process_text_verify(data, key, &signed, TextSignFormat::Blake3).unwrap();
    assert!(is_ok);
}

#[test]
fn test_process_text_sign_verify_ed25519() {
    let data = "hello world";
    let key = "eyW2pW29DLaVHe8N3@^Ve?*k@sbEgNFq";
    let signed = process_text_sign(data, key, TextSignFormat::Ed25519).unwrap();
    let is_ok = process_text_verify(data, key, &signed, TextSignFormat::Ed25519).unwrap();
    assert!(is_ok);
}

#[test]
fn test_decrypt_tampered_ciphertext_fails() {
    let result = process_text_encrypt("hello world").unwrap();
    let engine = &base64::prelude::BASE64_STANDARD;
    let cipher = engine.decode(&result.ciphertext_base64).unwrap();
    for i in 0..cipher.len() {
        let mut tampered = cipher.clone();
        tampered[i] ^= 0x01;
        let tampered_b64 = engine.encode(&tampered);
        let outcome =
            process_text_decrypt(&tampered_b64, &result.key_base64, &result.nonce_base64);
        assert_eq!(outcome.unwrap_err(), CryptoError::AuthenticationError);
    }
}

#[test]
fn test_decrypt_tampered_key_or_nonce_fails() {
    let result = process_text_encrypt("hello world").unwrap();
    let engine = &base64::prelude::BASE64_STANDARD;
    let key = engine.decode(&result.key_base64).unwrap();
    for i in 0..key.len() {
        let mut tampered = key.clone();
        tampered[i] ^= 0x01;
        let tampered_b64 = engine.encode(&tampered);
        let outcome =
            process_text_decrypt(&result.ciphertext_base64, &tampered_b64, &result.nonce_base64);
        assert_eq!(outcome.unwrap_err(), CryptoError::AuthenticationError);
    }
    let nonce = engine.decode(&result.nonce_base64).unwrap();
    for i in 0..nonce.len() {
        let mut tampered = nonce.clone();
        tampered[i] ^= 0x01;
        let tampered_b64 = engine.encode(&tampered);
        let outcome =
            process_text_decrypt(&result.ciphertext_base64, &result.key_base64, &tampered_b64);
        assert_eq!(outcome.unwrap_err(), CryptoError::AuthenticationError);
    }
}

#[test]
fn test_decrypt_error_kinds() {
    let result = process_text_encrypt("hello world").unwrap();
    let bad_b64 = "not valid base64!!!";
    assert_eq!(
        process_text_decrypt(bad_b64, &result.key_base64, &result.nonce_base64).unwrap_err(),
        CryptoError::EncodingError
    );
    assert_eq!(
        process_text_decrypt(&result.ciphertext_base64, bad_b64, &result.nonce_base64)
            .unwrap_err(),
        CryptoError::EncodingError
    );
    let short_key = base64::prelude::BASE64_STANDARD.encode([0u8; 16]);
    assert_eq!(
        process_text_decrypt(&result.ciphertext_base64, &short_key, &result.nonce_base64)
            .unwrap_err(),
        CryptoError::KeyShapeError
    );
    let short_nonce = base64::prelude::BASE64_STANDARD.encode([0u8; 12]);
    assert_eq!(
        process_text_decrypt(&result.ciphertext_base64, &result.key_base64, &short_nonce)
            .unwrap_err(),
        CryptoError::KeyShapeError
    );
}

#[test]
fn test_blake3_verify_rejects_other_data() {
    let signed = process_text_sign("hello world", KEY, TextSignFormat::Blake3).unwrap();
    let same = process_text_verify("hello world", KEY, &signed, TextSignFormat::Blake3).unwrap();
    assert!(same);
    let other = process_text_verify("hello there", KEY, &signed, TextSignFormat::Blake3).unwrap();
    assert!(!other);
}

#[test]
fn test_blake3_sign_is_deterministic() {
    let first = process_text_sign("hello world", KEY, TextSignFormat::Blake3).unwrap();
    let second = process_text_sign("hello world", KEY, TextSignFormat::Blake3).unwrap();
    assert_eq!(first, second);
    let hex_chars = first.chars().all(|c| c.is_ascii_hexdigit() && !c.is_ascii_uppercase());
    assert_eq!(first.len(), 64);
    assert!(hex_chars);
    let other_key = process_text_sign("hello world", "AyW2pW29DLaVHe8N3@^Ve?*k@sbEgNFq", TextSignFormat::Blake3).unwrap();
    assert_ne!(first, other_key);
}

#[test]
fn test_ed25519_verify_rejects_other_data_and_key() {
    let signed = process_text_sign("hello world", KEY, TextSignFormat::Ed25519).unwrap();
    let other_data =
        process_text_verify("hello there", KEY, &signed, TextSignFormat::Ed25519).unwrap();
    assert!(!other_data);
    let other_key = "AyW2pW29DLaVHe8N3@^Ve?*k@sbEgNFq";
    let cross = process_text_verify("hello world", other_key, &signed, TextSignFormat::Ed25519)
        .unwrap();
    assert!(!cross);
}

#[test]
fn test_ed25519_signature_shape() {
    let signed = process_text_sign("hello world", KEY, TextSignFormat::Ed25519).unwrap();
    let raw = base64::prelude::BASE64_STANDARD.decode(&signed).unwrap();
    assert_eq!(raw.len(), 64);
    assert_ne!(signed, "hello world");
}

#[test]
fn test_ed25519_verify_error_kinds() {
    assert_eq!(
        process_text_verify("hello world", KEY, "not base64!!!", TextSignFormat::Ed25519)
            .unwrap_err(),
        CryptoError::EncodingError
    );
    let short_sig = base64::prelude::BASE64_STANDARD.encode([0u8; 10]);
    assert_eq!(
        process_text_verify("hello world", KEY, &short_sig, TextSignFormat::Ed25519).unwrap_err(),
        CryptoError::EncodingError
    );
}

#[test]
fn test_short_key_rejected() {
    let short = "0123456789012345678901234567890";
    assert_eq!(
        process_text_sign("hello world", short, TextSignFormat::Blake3).unwrap_err(),
        CryptoError::KeyShapeError
    );
    assert_eq!(
        process_text_sign("hello world", short, TextSignFormat::Ed25519).unwrap_err(),
        CryptoError::KeyShapeError
    );
    assert_eq!(
        process_text_verify("hello world", short, "aaaa", TextSignFormat::Blake3).unwrap_err(),
        CryptoError::KeyShapeError
    );
    assert_eq!(
        process_text_verify("hello world", short, "aaaa", TextSignFormat::Ed25519).unwrap_err(),
        CryptoError::KeyShapeError
    );
}

#[test]
fn test_over_length_key_truncated() {
    let long_key = format!("{}tail-material-beyond-32-bytes", KEY);
    let signed_long = process_text_sign("hello world", &long_key, TextSignFormat::Blake3).unwrap();
    let signed_exact = process_text_sign("hello world", KEY, TextSignFormat::Blake3).unwrap();
    assert_eq!(signed_long, signed_exact);
}

#[test]
fn test_generate_key_counts() {
    let blake3_keys = process_text_generate_key(TextSignFormat::Blake3).unwrap();
    assert_eq!(blake3_keys.len(), 1);
    assert_eq!(blake3_keys[0].len(), 32);
    let ed25519_keys = process_text_generate_key(TextSignFormat::Ed25519).unwrap();
    assert_eq!(ed25519_keys.len(), 2);
    let engine = &base64::prelude::BASE64_STANDARD;
    assert_eq!(engine.decode(&ed25519_keys[0]).unwrap().len(), 32);
    assert_eq!(engine.decode(&ed25519_keys[1]).unwrap().len(), 32);
}

#[test]
fn test_generated_keys_sign_and_verify() {
    let blake3_keys = process_text_generate_key(TextSignFormat::Blake3).unwrap();
    let signed = process_text_sign("payload", &blake3_keys[0], TextSignFormat::Blake3).unwrap();
    assert!(process_text_verify("payload", &blake3_keys[0], &signed, TextSignFormat::Blake3)
        .unwrap());

    let ed25519_keys = process_text_generate_key(TextSignFormat::Ed25519).unwrap();
    let signed = process_text_sign("payload", &ed25519_keys[0], TextSignFormat::Ed25519).unwrap();
    assert!(process_text_verify("payload", &ed25519_keys[0], &signed, TextSignFormat::Ed25519)
        .unwrap());
}

#[test]
fn test_encrypt_unicode_round_trip() {
    let plain_text = "grüße, 世界";
    let result = process_text_encrypt(plain_text).unwrap();
    let decrypted = process_text_decrypt(
        &result.ciphertext_base64,
        &result.key_base64,
        &result.nonce_base64,
    )
    .unwrap();
    assert_eq!(plain_text, decrypted);
}
