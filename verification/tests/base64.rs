use rcli::{process_base64_decode, process_base64_encode, Base64Format, CryptoError};

#[test]
fn test_base64_encode_exact() {
    assert_eq!(
        process_base64_encode("hello world", Base64Format::Standard).unwrap(),
        "aGVsbG8gd29ybGQ="
    );
    assert_eq!(process_base64_encode("", Base64Format::Standard).unwrap(), "");
    assert_eq!(process_base64_encode("ab", Base64Format::Standard).unwrap(), "YWI=");
}

#[test]
fn test_base64_decode_exact() {
    assert_eq!(
        process_base64_decode("aGVsbG8gd29ybGQ=", Base64Format::Standard).unwrap(),
        "hello world"
    );
    assert_eq!(process_base64_decode("", Base64Format::Standard).unwrap(), "");
}

#[test]
fn test_base64_round_trip_both_alphabets() {
    for format in [Base64Format::Standard, Base64Format::UrlSafe] {
        let data = "any carnal pleasure? grüße!";
        let encoded = process_base64_encode(data, format).unwrap();
        let decoded = process_base64_decode(&encoded, format).unwrap();
        assert_eq!(decoded, data);
    }
}

#[test]
fn test_base64_alphabets_differ() {
    let data = "\u{00fb}\u{00ff}\u{00fe}";
    let standard = process_base64_encode(data, Base64Format::Standard).unwrap();
    let url_safe = process_base64_encode(data, Base64Format::UrlSafe).unwrap();
    assert_ne!(standard, url_safe);
    assert_eq!(
        process_base64_decode(&standard, Base64Format::UrlSafe).unwrap_err(),
        CryptoError::EncodingError
    );
}

#[test]
fn test_base64_decode_rejects_invalid() {
    assert_eq!(
        process_base64_decode("not base64!!!", Base64Format::Standard).unwrap_err(),
        CryptoError::EncodingError
    );
    assert_eq!(
        process_base64_decode("////", Base64Format::UrlSafe).unwrap_err(),
        CryptoError::EncodingError
    );
}

#[test]
fn test_base64_decode_rejects_non_text_bytes() {
    let encoded = base64::Engine::encode(&base64::prelude::BASE64_STANDARD, [0xffu8, 0xfe, 0xfd]);
    assert_eq!(
        process_base64_decode(&encoded, Base64Format::Standard).unwrap_err(),
        CryptoError::EncodingError
    );
}
