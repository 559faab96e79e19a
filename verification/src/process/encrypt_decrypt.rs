//! Authenticated symmetric encryption of text with XChaCha20-Poly1305:
//! a 32-byte key, a 24-byte extended nonce, and a ciphertext that carries
//! its own integrity tag. The extended nonce is chosen so that a fresh
//! random nonce per call is safe without any nonce-management state.

use crate::errors::CryptoError;
use crate::process::base64::{b64_decode_std, decode_std, encode_std};
use crate::util::bytes_to_string;
use chacha20poly1305::aead::{Aead, AeadCore, KeyInit, OsRng};
use chacha20poly1305::XChaCha20Poly1305;
use vstd::prelude::*;
use vstd::string::StringSliceAdditionalSpecFns;
use vstd::utf8::{decode_utf8_encode_utf8, encode_utf8, encode_utf8_valid_utf8, valid_utf8};

verus! {

/// The ciphertext (tag included) that XChaCha20-Poly1305 produces from the
/// given key, nonce and plaintext. Encryption under a fixed key and nonce is
/// a deterministic function of the plaintext.
pub uninterp spec fn xchacha_seal(key: Seq<u8>, nonce: Seq<u8>, plain: Seq<u8>) -> Seq<u8>;

/// The longest message the cipher handles cleanly: 64 * (2^32 - 2) bytes.
/// Deriving the Poly1305 key consumes the first keystream block, so of the
/// 32-bit block counter's range 2^32 - 2 blocks remain for the message;
/// asking for more is refused or aborts inside the cipher.
pub const MAX_PLAINTEXT_LEN: u64 = 0x3FFFFFFF80;

/// Relies on `XChaCha20Poly1305::generate_key` with the operating-system
/// RNG: a fresh random 32-byte key. Nothing more is promised of a random
/// value.
#[verifier::external_body]
fn generate_sym_key() -> (r: Vec<u8>)
    ensures
        r@.len() == 32,
{
    XChaCha20Poly1305::generate_key(&mut OsRng).to_vec()
}

/// Relies on `XChaCha20Poly1305::generate_nonce` with the operating-system
/// RNG: a fresh random 24-byte extended nonce.
#[verifier::external_body]
fn generate_sym_nonce() -> (r: Vec<u8>)
    ensures
        r@.len() == 24,
{
    XChaCha20Poly1305::generate_nonce(&mut OsRng).to_vec()
}

/// Relies on `XChaCha20Poly1305::encrypt`: the ciphertext of the plaintext
/// under the given key and nonce, with the 16-byte tag appended. Within the
/// keystream blocks left after the Poly1305 key derivation — the `requires`
/// bound — the cipher neither fails nor aborts.
#[verifier::external_body]
fn aead_encrypt(key: &[u8], nonce: &[u8], plain: &[u8]) -> (r: Option<Vec<u8>>)
    requires
        key@.len() == 32,
        nonce@.len() == 24,
        plain@.len() <= MAX_PLAINTEXT_LEN,
    ensures
        r is Some,
        r matches Some(c) ==> c@ == xchacha_seal(key@, nonce@, plain@) && c@.len() == plain@.len()
            + 16,
{
    let cipher = XChaCha20Poly1305::new(chacha20poly1305::Key::from_slice(key));
    cipher.encrypt(chacha20poly1305::XNonce::from_slice(nonce), plain).ok()
}

/// Relies on `XChaCha20Poly1305::decrypt`: among the plaintexts whose
/// sealing the cipher handles (which is why the claims carry the length
/// relation of a sealed message, and the `requires` keeps the input within
/// the keystream blocks left after the Poly1305 key derivation), it accepts
/// exactly the ciphertexts that the same key and nonce seal some plaintext
/// to, and returns that unique plaintext; the tag check rejects every other
/// byte string.
#[verifier::external_body]
fn aead_decrypt(key: &[u8], nonce: &[u8], cipher_text: &[u8]) -> (r: Option<Vec<u8>>)
    requires
        key@.len() == 32,
        nonce@.len() == 24,
        cipher_text@.len() <= MAX_PLAINTEXT_LEN + 16,
    ensures
        r matches Some(p) ==> cipher_text@ == xchacha_seal(key@, nonce@, p@) && p@.len() + 16
            == cipher_text@.len(),
        r matches Some(p) ==> (forall|q: Seq<u8>|
            q.len() + 16 == cipher_text@.len() && cipher_text@ == xchacha_seal(key@, nonce@, q)
                ==> q == p@),
        r is None ==> (forall|q: Seq<u8>|
            q.len() + 16 == cipher_text@.len() ==> cipher_text@ != xchacha_seal(key@, nonce@, q)),
{
    let cipher = XChaCha20Poly1305::new(chacha20poly1305::Key::from_slice(key));
    cipher.decrypt(chacha20poly1305::XNonce::from_slice(nonce), cipher_text).ok()
}

/// The output of one symmetric encryption. Each binary artifact is exposed
/// only in its base64 form; the ciphertext carries the authentication tag
/// and must never be split or truncated before decryption.
pub struct EncryptResult {
    pub key_base64: String,
    pub nonce_base64: String,
    pub ciphertext_base64: String,
}

/// Holds when the three base64 fields of `er` decode to a 32-byte key, a
/// 24-byte nonce, and exactly the ciphertext that they seal `plain` to:
/// the plaintext with the 16-byte tag appended, never split or truncated.
pub open spec fn encryption_result_for(er: EncryptResult, plain: Seq<u8>) -> bool {
    match (b64_decode_std(er.key_base64@), b64_decode_std(er.nonce_base64@), b64_decode_std(
        er.ciphertext_base64@,
    )) {
        (Some(k), Some(n), Some(c)) => {
            &&& k.len() == 32
            &&& n.len() == 24
            &&& plain.len() <= MAX_PLAINTEXT_LEN
            &&& c.len() == plain.len() + 16
            &&& c == xchacha_seal(k, n, plain)
        },
        _ => false,
    }
}

/// Holds when the three base64 inputs of a decryption decode to a 32-byte
/// key, a 24-byte nonce and a ciphertext that they seal the text `plain` to:
/// exactly the decryptions that must succeed and return `plain`.
pub open spec fn decrypt_matches(
    cipher_b64: Seq<char>,
    key_b64: Seq<char>,
    nonce_b64: Seq<char>,
    plain: Seq<char>,
) -> bool {
    match (b64_decode_std(cipher_b64), b64_decode_std(key_b64), b64_decode_std(nonce_b64)) {
        (Some(c), Some(k), Some(n)) => {
            &&& k.len() == 32
            &&& n.len() == 24
            &&& encode_utf8(plain).len() <= MAX_PLAINTEXT_LEN
            &&& c.len() == encode_utf8(plain).len() + 16
            &&& c == xchacha_seal(k, n, encode_utf8(plain))
        },
        _ => false,
    }
}

/// The ciphertext is the sealing of some plaintext the cipher accepts under
/// this key and nonce: exactly the byte strings whose integrity tag
/// verifies.
pub open spec fn seals_to(key: Seq<u8>, nonce: Seq<u8>, cipher: Seq<u8>) -> bool {
    exists|p: Seq<u8>|
        p.len() <= MAX_PLAINTEXT_LEN && p.len() + 16 == cipher.len() && cipher == xchacha_seal(
            key,
            nonce,
            p,
        )
}

/// The error a failed decryption reports: `EncodingError` for inputs that
/// are not base64 or a recovered plaintext that is not text,
/// `KeyShapeError` for a key or nonce of the wrong length, and
/// `AuthenticationError` where the integrity tag does not verify.
pub open spec fn decrypt_error(
    cipher_b64: Seq<char>,
    key_b64: Seq<char>,
    nonce_b64: Seq<char>,
) -> CryptoError {
    match (b64_decode_std(cipher_b64), b64_decode_std(key_b64), b64_decode_std(nonce_b64)) {
        (Some(c), Some(k), Some(n)) => if k.len() != 32 || n.len() != 24 {
            CryptoError::KeyShapeError
        } else if !seals_to(k, n, c) {
            CryptoError::AuthenticationError
        } else {
            CryptoError::EncodingError
        },
        _ => CryptoError::EncodingError,
    }
}

/// Round trip: whatever result a successful encryption of `plain` returns,
/// its ciphertext, key and nonce are a decryption input that matches
/// `plain` — so decryption of it must succeed, and by the decryptor's own
/// contract can only return `plain` itself.
pub proof fn lemma_encrypt_then_decrypt(er: EncryptResult, plain: Seq<char>)
    requires
        encryption_result_for(er, encode_utf8(plain)),
    ensures
        decrypt_matches(er.ciphertext_base64@, er.key_base64@, er.nonce_base64@, plain),
{
}

/// An encryptor bound to one algorithm; the subsystem's only implementation
/// uses XChaCha20-Poly1305.
pub trait TextEncryptor {
    /// Encrypts the text under a fresh random key and nonce and returns all
    /// three artifacts base64-encoded. It succeeds on every plaintext the
    /// cipher's block counter covers, which is every text a machine holds.
    fn encrypt(data: &str) -> (r: Result<EncryptResult, CryptoError>)
        ensures
            r is Ok <==> data.spec_bytes().len() <= MAX_PLAINTEXT_LEN,
            r matches Ok(er) ==> encryption_result_for(er, data.spec_bytes()),
            r matches Err(e) ==> e == CryptoError::CryptoError,
    ;
}

/// A decryptor bound to one algorithm, inverse to [`TextEncryptor`].
pub trait TextDecrypor {
    /// Decrypts base64 ciphertext with a base64 key and nonce; succeeds
    /// exactly on the inputs some plaintext was sealed to, and then returns
    /// that unique plaintext.
    fn decrypt(data: &str, key_base64: &str, nonce_base64: &str) -> (r: Result<
        String,
        CryptoError,
    >)
        ensures
            r is Ok <==> (exists|q: Seq<char>|
                decrypt_matches(data@, key_base64@, nonce_base64@, q)),
            r matches Ok(s) ==> decrypt_matches(data@, key_base64@, nonce_base64@, s@),
            r matches Ok(s) ==> (forall|q: Seq<char>|
                decrypt_matches(data@, key_base64@, nonce_base64@, q) ==> q == s@),
            r matches Err(e) ==> e == decrypt_error(data@, key_base64@, nonce_base64@),
    ;
}

/// The subsystem's authenticated cipher.
pub struct ChaCha20Poly1305 {}

impl TextEncryptor for ChaCha20Poly1305 {
    fn encrypt(data: &str) -> (r: Result<EncryptResult, CryptoError>) {
        if data.as_bytes().len() as u64 > MAX_PLAINTEXT_LEN {
            return Err(CryptoError::CryptoError);
        }
        let key = generate_sym_key();
        let nonce = generate_sym_nonce();
        match aead_encrypt(key.as_slice(), nonce.as_slice(), data.as_bytes()) {
            None => Err(CryptoError::CryptoError),
            Some(ciphertext) => {
                let key_base64 = encode_std(key.as_slice());
                let nonce_base64 = encode_std(nonce.as_slice());
                let ciphertext_base64 = encode_std(ciphertext.as_slice());
                Ok(EncryptResult { key_base64, nonce_base64, ciphertext_base64 })
            },
        }
    }
}

impl TextDecrypor for ChaCha20Poly1305 {
    fn decrypt(data: &str, key_base64: &str, nonce_base64: &str) -> (r: Result<
        String,
        CryptoError,
    >) {
        let cipher_bytes = match decode_std(data) {
            Some(v) => v,
            None => {
                return Err(CryptoError::EncodingError);
            },
        };
        let key_bytes = match decode_std(key_base64) {
            Some(v) => v,
            None => {
                return Err(CryptoError::EncodingError);
            },
        };
        let nonce_bytes = match decode_std(nonce_base64) {
            Some(v) => v,
            None => {
                return Err(CryptoError::EncodingError);
            },
        };
        if key_bytes.len() != 32 || nonce_bytes.len() != 24 {
            return Err(CryptoError::KeyShapeError);
        }
        if cipher_bytes.len() as u64 > MAX_PLAINTEXT_LEN + 16 {
            proof {
                assert(!seals_to(key_bytes@, nonce_bytes@, cipher_bytes@));
                assert(forall|q: Seq<char>|
                    !decrypt_matches(data@, key_base64@, nonce_base64@, q));
            }
            return Err(CryptoError::AuthenticationError);
        }
        match aead_decrypt(key_bytes.as_slice(), nonce_bytes.as_slice(), cipher_bytes.as_slice()) {
            None => {
                proof {
                    assert(!seals_to(key_bytes@, nonce_bytes@, cipher_bytes@));
                    assert(forall|q: Seq<char>|
                        !decrypt_matches(data@, key_base64@, nonce_base64@, q));
                }
                Err(CryptoError::AuthenticationError)
            },
            Some(plain_bytes) => {
                let ghost pb = plain_bytes@;
                match bytes_to_string(plain_bytes) {
                    Some(s) => {
                        proof {
                            broadcast use decode_utf8_encode_utf8;

                            assert(encode_utf8(s@) == pb);
                            assert(decrypt_matches(data@, key_base64@, nonce_base64@, s@));
                            assert forall|q: Seq<char>|
                                decrypt_matches(
                                    data@,
                                    key_base64@,
                                    nonce_base64@,
                                    q,
                                ) implies q == s@ by {
                                assert(encode_utf8(q) == pb);
                                crate::util::lemma_encode_utf8_injective(q, s@);
                            }
                        }
                        Ok(s)
                    },
                    None => {
                        proof {
                            broadcast use encode_utf8_valid_utf8;

                            assert forall|q: Seq<char>|
                                !decrypt_matches(data@, key_base64@, nonce_base64@, q) by {
                                if decrypt_matches(data@, key_base64@, nonce_base64@, q) {
                                    assert(encode_utf8(q) == pb);
                                    assert(valid_utf8(pb));
                                }
                            }
                        }
                        Err(CryptoError::EncodingError)
                    },
                }
            },
        }
    }
}

} // verus!
