use rcli::{process_gen_pass, CryptoError};

const UPPER: &str = "ABCDEFGHJKLMNPQRSTUVWXYZ";
const LOWER: &str = "abcdefghjkmnpqrstuvwxyz";
const NUMBER: &str = "23456789";
const SYMBOL: &str = "*&^%?$#@!";

#[test]
fn test_gen_pass_length_and_classes() {
    let password = process_gen_pass(32, false, false, false, false).unwrap();
    assert_eq!(password.len(), 32);
    assert!(password.chars().all(|c| {
        UPPER.contains(c) || LOWER.contains(c) || NUMBER.contains(c) || SYMBOL.contains(c)
    }));
    assert!(password.chars().any(|c| UPPER.contains(c)));
    assert!(password.chars().any(|c| LOWER.contains(c)));
    assert!(password.chars().any(|c| NUMBER.contains(c)));
    assert!(password.chars().any(|c| SYMBOL.contains(c)));
}

#[test]
fn test_gen_pass_respects_exclusions() {
    let password = process_gen_pass(16, true, false, true, true).unwrap();
    assert_eq!(password.len(), 16);
    assert!(password.chars().all(|c| LOWER.contains(c)));
}

#[test]
fn test_gen_pass_varies_between_calls() {
    let first = process_gen_pass(32, false, false, false, false).unwrap();
    let second = process_gen_pass(32, false, false, false, false).unwrap();
    assert_ne!(first, second);
}

#[test]
fn test_gen_pass_empty_cases() {
    assert_eq!(process_gen_pass(0, true, true, true, true).unwrap(), "");
    assert_eq!(
        process_gen_pass(8, true, true, true, true).unwrap_err(),
        CryptoError::GenerationError
    );
}
