use rcli::{parse_base64_format, verify_file, verify_path, Base64Format, OutputFormat, TextSignFormat};

#[test]
fn test_verify_file() {
    assert_eq!(verify_file("-"), Ok("-".to_string()));
    assert_eq!(verify_file("src/lib.rs"), Ok("src/lib.rs".into()));
    assert_eq!(verify_file("not-exist"), Err("File does not exist"));
}

#[test]
fn test_verify_path() {
    assert_eq!(verify_path("src"), Ok("src".to_string()));
    assert_eq!(verify_path("not-exist-dir"), Err("Path does not exist"));
    assert_eq!(verify_path("Cargo.toml"), Err("Path does not exist"));
}

#[test]
fn test_parse_base64_format() {
    assert!(matches!(parse_base64_format("standard"), Ok(Base64Format::Standard)));
    assert!(matches!(parse_base64_format("urlsafe"), Ok(Base64Format::UrlSafe)));
    assert_eq!(parse_base64_format("base32"), Err("Invalid format"));
}

#[test]
fn test_parse_text_sign_format() {
    assert!(matches!(TextSignFormat::from_str("blake3"), Ok(TextSignFormat::Blake3)));
    assert!(matches!(TextSignFormat::from_str("ed25519"), Ok(TextSignFormat::Ed25519)));
    assert_eq!(TextSignFormat::from_str("rsa"), Err("Invalid format"));
    assert_eq!(TextSignFormat::Blake3.as_str(), "blake3");
    assert_eq!(TextSignFormat::Ed25519.as_str(), "ed25519");
}

#[test]
fn test_parse_output_format() {
    assert!(matches!(OutputFormat::from_str("json"), Ok(OutputFormat::Json)));
    assert!(matches!(OutputFormat::from_str("yaml"), Ok(OutputFormat::Yaml)));
    assert!(matches!(OutputFormat::from_str("toml"), Ok(OutputFormat::Toml)));
    assert!(matches!(OutputFormat::from_str("proto"), Ok(OutputFormat::Proto)));
    assert_eq!(OutputFormat::from_str("csv"), Err("Invalid format"));
    assert_eq!(OutputFormat::Json.as_str(), "json");
}

