//! The text-command operations: encrypt, decrypt, sign, verify and key
//! generation, each dispatched over the caller's explicit algorithm tag.

use crate::cli::TextSignFormat;
use crate::errors::CryptoError;
use crate::process::encrypt_decrypt::{
    decrypt_error, decrypt_matches, encryption_result_for, ChaCha20Poly1305, EncryptResult,
    TextDecrypor, TextEncryptor, MAX_PLAINTEXT_LEN,
};
use crate::process::signer_verifier::{
    blake3_keyed_hex, ed25519_signature_text_ok, ed25519_text_runs, Blake3,
    Ed25519, KeyGenerator, TextSigner, TextVerifier,
};
use vstd::prelude::*;
use vstd::string::StringSliceAdditionalSpecFns;

verus! {

/// Encrypts the text under a fresh random 32-byte key and 24-byte nonce
/// with the authenticated cipher, and returns ciphertext, key and nonce
/// base64-encoded. It succeeds on every plaintext the cipher's block
/// counter covers, which is every text a machine holds.
pub fn process_text_encrypt(plain_text: &str) -> (r: Result<EncryptResult, CryptoError>)
    ensures
        r is Ok <==> plain_text.spec_bytes().len() <= MAX_PLAINTEXT_LEN,
        r matches Ok(er) ==> encryption_result_for(er, plain_text.spec_bytes()),
        r matches Err(e) ==> e == CryptoError::CryptoError,
{
    ChaCha20Poly1305::encrypt(plain_text)
}

/// Decrypts base64 ciphertext with a base64 key and nonce: succeeds exactly
/// on the inputs some plaintext was sealed to, and then returns that unique
/// plaintext; anything else fails with the error `decrypt_error` names.
pub fn process_text_decrypt(cipher_text: &str, key_base64: &str, nonce_base64: &str) -> (r: Result<
    String,
    CryptoError,
>)
    ensures
        r is Ok <==> (exists|q: Seq<char>|
            decrypt_matches(cipher_text@, key_base64@, nonce_base64@, q)),
        r matches Ok(s) ==> decrypt_matches(cipher_text@, key_base64@, nonce_base64@, s@),
        r matches Ok(s) ==> (forall|q: Seq<char>|
            decrypt_matches(cipher_text@, key_base64@, nonce_base64@, q) ==> q == s@),
        r matches Err(e) ==> e == decrypt_error(cipher_text@, key_base64@, nonce_base64@),
{
    ChaCha20Poly1305::decrypt(cipher_text, key_base64, nonce_base64)
}

/// Signs the text under the chosen algorithm with the first 32 bytes of the
/// key material; material shorter than 32 bytes is rejected with
/// `KeyShapeError` before any cryptographic call.
pub fn process_text_sign(data: &str, key: &str, format: TextSignFormat) -> (r: Result<
    String,
    CryptoError,
>)
    ensures
        r is Ok <==> key.spec_bytes().len() >= 32,
        r matches Err(e) ==> e == CryptoError::KeyShapeError,
        r matches Ok(s) ==> (match format {
            TextSignFormat::Blake3 => s@ == blake3_keyed_hex(
                key.spec_bytes().subrange(0, 32),
                data.spec_bytes(),
            ),
            TextSignFormat::Ed25519 => ed25519_signature_text_ok(
                key.spec_bytes().subrange(0, 32),
                data.spec_bytes(),
                s@,
            ),
        }),
{
    match format {
        TextSignFormat::Blake3 => {
            match Blake3::try_new(key.as_bytes()) {
                Ok(signer) => signer.sign(data),
                Err(e) => Err(e),
            }
        },
        TextSignFormat::Ed25519 => {
            match Ed25519::try_new(key.as_bytes()) {
                Ok(signer) => signer.sign(data),
                Err(e) => Err(e),
            }
        },
    }
}

/// Verifies the signature text over the data under the chosen algorithm,
/// with the first 32 bytes of the key material. A `false` verdict is a
/// normal return value; `Err` means verification could not run: short key
/// material, or asymmetric signature text that does not decode to 64 bytes.
pub fn process_text_verify(data: &str, key: &str, signed: &str, format: TextSignFormat) -> (r:
    Result<bool, CryptoError>)
    ensures
        r is Ok <==> (key.spec_bytes().len() >= 32 && (match format {
            TextSignFormat::Blake3 => true,
            TextSignFormat::Ed25519 => ed25519_text_runs(signed@),
        })),
        r matches Ok(b) ==> b == (match format {
            TextSignFormat::Blake3 => signed@ == blake3_keyed_hex(
                key.spec_bytes().subrange(0, 32),
                data.spec_bytes(),
            ),
            TextSignFormat::Ed25519 => ed25519_signature_text_ok(
                key.spec_bytes().subrange(0, 32),
                data.spec_bytes(),
                signed@,
            ),
        }),
        r matches Err(e) ==> e == (if key.spec_bytes().len() < 32 {
            CryptoError::KeyShapeError
        } else {
            CryptoError::EncodingError
        }),
{
    match format {
        TextSignFormat::Blake3 => {
            match Blake3::try_new(key.as_bytes()) {
                Ok(verifier) => verifier.verify(data, signed),
                Err(e) => Err(e),
            }
        },
        TextSignFormat::Ed25519 => {
            match Ed25519::try_new(key.as_bytes()) {
                Ok(verifier) => verifier.verify(data, signed),
                Err(e) => Err(e),
            }
        },
    }
}

/// Generates fresh key material for the chosen algorithm: one printable
/// item for the keyed hash, two (seed first, derived public key second) for
/// the asymmetric scheme. The caller chooses where each item is persisted.
pub fn process_text_generate_key(format: TextSignFormat) -> (r: Result<Vec<String>, CryptoError>)
    ensures
        r is Ok,
        r matches Ok(keys) ==> (match format {
            TextSignFormat::Blake3 => <Blake3 as KeyGenerator>::generated_keys_ok(
                keys.deep_view(),
            ),
            TextSignFormat::Ed25519 => <Ed25519 as KeyGenerator>::generated_keys_ok(
                keys.deep_view(),
            ),
        }),
{
    match format {
        TextSignFormat::Blake3 => Blake3::generate_key(),
        TextSignFormat::Ed25519 => Ed25519::generate_key(),
    }
}

} // verus!
