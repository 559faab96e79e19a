//! Keyed and asymmetric message signing: a BLAKE3 keyed hash rendered as
//! hex, and Ed25519 signatures carried as base64, both behind the same
//! signer/verifier/key-generator capabilities. Key material is truncated to
//! its first 32 bytes; shorter material is rejected before any cryptographic
//! call.

use crate::errors::CryptoError;
use crate::process::base64::{b64_decode_std, decode_std, encode_std};
use crate::process::gen_pass::{
    has_lower_char, has_number_char, has_symbol_char, has_upper_char, is_password_char,
    process_gen_pass,
};
use crate::util::{ct_bytes_eq, lemma_encode_utf8_injective};
use ed25519_dalek::{Signer, Verifier};
use vstd::prelude::*;
use vstd::string::StringSliceAdditionalSpecFns;
use vstd::utf8::encode_utf8;

verus! {

/// The 64-character lowercase hexadecimal form of the BLAKE3 keyed hash of
/// `data` under the 32-byte `key`: a function of key and data alone.
pub uninterp spec fn blake3_keyed_hex(key: Seq<u8>, data: Seq<u8>) -> Seq<char>;

/// The Ed25519 public key that the 32-byte signing-key seed derives
/// deterministically.
pub uninterp spec fn ed25519_public_of(seed: Seq<u8>) -> Seq<u8>;

/// The (deterministic) Ed25519 verification verdict for a public key, a
/// message and a 64-byte signature.
pub uninterp spec fn ed25519_verifies(public_key: Seq<u8>, msg: Seq<u8>, sig: Seq<u8>) -> bool;

/// Relies on `blake3::keyed_hash` and `Hash::to_hex`: the 64-character
/// lowercase hexadecimal form of the 256-bit keyed hash.
#[verifier::external_body]
fn keyed_hash_hex(key: &[u8; 32], data: &[u8]) -> (r: String)
    ensures
        r@ == blake3_keyed_hex(key@, data@),
        r@.len() == 64,
{
    blake3::keyed_hash(key, data).to_hex().as_str().to_owned()
}

/// Relies on ed25519_dalek's `SigningKey::from_bytes` and `Signer::sign`:
/// a 64-byte signature over `msg` that verifies under the public key the
/// seed derives.
#[verifier::external_body]
fn ed25519_sign_bytes(seed: &[u8; 32], msg: &[u8]) -> (r: Vec<u8>)
    ensures
        r@.len() == 64,
        ed25519_verifies(ed25519_public_of(seed@), msg@, r@),
{
    let signing_key = ed25519_dalek::SigningKey::from_bytes(seed);
    signing_key.sign(msg).to_bytes().to_vec()
}

/// Relies on ed25519_dalek's `SigningKey::verifying_key` and
/// `Verifier::verify`: the deterministic verdict of the signature over the
/// message, under the public key the seed derives.
#[verifier::external_body]
fn ed25519_verify_bytes(seed: &[u8; 32], msg: &[u8], sig: &[u8]) -> (r: bool)
    requires
        sig@.len() == 64,
    ensures
        r == ed25519_verifies(ed25519_public_of(seed@), msg@, sig@),
{
    let signing_key = ed25519_dalek::SigningKey::from_bytes(seed);
    let verifying_key = signing_key.verifying_key();
    let mut sig_bytes = [0u8; 64];
    sig_bytes.copy_from_slice(sig);
    let signature = ed25519_dalek::Signature::from_bytes(&sig_bytes);
    verifying_key.verify(msg, &signature).is_ok()
}

/// Relies on ed25519_dalek's `SigningKey::generate` with the
/// operating-system RNG, `to_bytes` and `verifying_key`: a fresh random
/// 32-byte seed and the 32-byte public key it derives.
#[verifier::external_body]
fn ed25519_generate_pair() -> (r: (Vec<u8>, Vec<u8>))
    ensures
        r.0@.len() == 32,
        r.1@.len() == 32,
        r.1@ == ed25519_public_of(r.0@),
{
    let signing_key = ed25519_dalek::SigningKey::generate(&mut rand::rngs::OsRng);
    (signing_key.to_bytes().to_vec(), signing_key.verifying_key().to_bytes().to_vec())
}

/// Relies on the std slice `copy_from_slice`: the first 32 bytes of the
/// slice as an array.
#[verifier::external_body]
fn key_prefix_32(key: &[u8]) -> (r: [u8; 32])
    requires
        key@.len() >= 32,
    ensures
        r@ == key@.subrange(0, 32),
{
    let mut arr = [0u8; 32];
    arr.copy_from_slice(&key[..32]);
    arr
}

/// A base64 signature text that decodes to a valid 64-byte Ed25519
/// signature of `msg` under the public key derived from `seed`.
pub open spec fn ed25519_signature_text_ok(seed: Seq<u8>, msg: Seq<u8>, sig_text: Seq<char>) -> bool {
    match b64_decode_std(sig_text) {
        Some(sig) => sig.len() == 64 && ed25519_verifies(ed25519_public_of(seed), msg, sig),
        None => false,
    }
}

/// Base64 signature text on which Ed25519 verification can run at all: it
/// decodes, and to exactly 64 bytes.
pub open spec fn ed25519_text_runs(sig_text: Seq<char>) -> bool {
    match b64_decode_std(sig_text) {
        Some(sig) => sig.len() == 64,
        None => false,
    }
}

/// A generator of key material matching one signature algorithm's key
/// shape.
pub trait KeyGenerator {
    /// What the generated key material looks like, over the views of the
    /// returned strings.
    spec fn generated_keys_ok(keys: Seq<Seq<char>>) -> bool;

    /// Generates fresh key material: one printable item per key the
    /// algorithm needs.
    fn generate_key() -> (r: Result<Vec<String>, CryptoError>)
        ensures
            r is Ok,
            r matches Ok(keys) ==> Self::generated_keys_ok(keys.deep_view()),
    ;
}

/// A signer bound to one algorithm and one piece of key material.
pub trait TextSigner {
    /// What it means for `sig` to be a signature this instance produces
    /// over `data`.
    spec fn signature_matches(&self, data: Seq<char>, sig: Seq<char>) -> bool;

    /// Signs the text; never fails once the instance is constructed.
    fn sign(&self, data: &str) -> (r: Result<String, CryptoError>)
        ensures
            r is Ok,
            r matches Ok(s) ==> self.signature_matches(data@, s@),
    ;
}

/// A verifier bound to one algorithm and one piece of key material.
pub trait TextVerifier {
    /// Whether verification can run at all on this signature text (for the
    /// asymmetric algorithm the text must decode to a 64-byte signature).
    spec fn verification_runs(&self, signed: Seq<char>) -> bool;

    /// The verdict verification reaches where it runs.
    spec fn verdict(&self, data: Seq<char>, signed: Seq<char>) -> bool;

    /// Verifies the signature text over the data. A `false` verdict is a
    /// normal return value; `Err` means verification could not run.
    fn verify(&self, data: &str, signed: &str) -> (r: Result<bool, CryptoError>)
        ensures
            r is Ok <==> self.verification_runs(signed@),
            r matches Ok(b) ==> b == self.verdict(data@, signed@),
            r matches Err(e) ==> e == CryptoError::EncodingError,
    ;
}

/// The keyed-hash signer: BLAKE3 in keyed mode under a 32-byte key, the
/// digest rendered in its canonical hexadecimal string form.
pub struct Blake3 {
    key: [u8; 32],
}

impl Blake3 {
    /// The 32 key bytes this instance signs with.
    pub closed spec fn key_bytes(&self) -> Seq<u8> {
        self.key@
    }

    /// Builds a signer from raw key material: the first 32 bytes are the
    /// key; shorter material is rejected before any cryptographic call.
    pub fn try_new(key: &[u8]) -> (r: Result<Blake3, CryptoError>)
        ensures
            r is Ok <==> key@.len() >= 32,
            r matches Ok(b) ==> b.key_bytes() == key@.subrange(0, 32),
            r matches Err(e) ==> e == CryptoError::KeyShapeError,
    {
        if key.len() < 32 {
            Err(CryptoError::KeyShapeError)
        } else {
            Ok(Self::new(key_prefix_32(key)))
        }
    }

    /// Builds a signer from exactly 32 key bytes.
    pub fn new(key: [u8; 32]) -> (r: Blake3)
        ensures
            r.key_bytes() == key@,
    {
        Blake3 { key }
    }
}

impl TextSigner for Blake3 {
    open spec fn signature_matches(&self, data: Seq<char>, sig: Seq<char>) -> bool {
        sig == blake3_keyed_hex(self.key_bytes(), encode_utf8(data))
    }

    fn sign(&self, data: &str) -> (r: Result<String, CryptoError>) {
        Ok(keyed_hash_hex(&self.key, data.as_bytes()))
    }
}

impl TextVerifier for Blake3 {
    open spec fn verification_runs(&self, signed: Seq<char>) -> bool {
        true
    }

    open spec fn verdict(&self, data: Seq<char>, signed: Seq<char>) -> bool {
        signed == blake3_keyed_hex(self.key_bytes(), encode_utf8(data))
    }

    fn verify(&self, data: &str, signed: &str) -> (r: Result<bool, CryptoError>) {
        let computed = keyed_hash_hex(&self.key, data.as_bytes());
        let equal = ct_bytes_eq(computed.as_str().as_bytes(), signed.as_bytes());
        proof {
            lemma_encode_utf8_injective(computed@, signed@);
        }
        Ok(equal)
    }
}

impl KeyGenerator for Blake3 {
    open spec fn generated_keys_ok(keys: Seq<Seq<char>>) -> bool {
        &&& keys.len() == 1
        &&& keys[0].len() == 32
        &&& forall|i: int|
            #![trigger keys[0][i]]
            0 <= i < 32 ==> keys[0][i] <= '\u{7f}' && is_password_char(
                keys[0][i] as u8,
                false,
                false,
                false,
                false,
            )
        &&& has_upper_char(keys[0])
        &&& has_lower_char(keys[0])
        &&& has_number_char(keys[0])
        &&& has_symbol_char(keys[0])
    }

    fn generate_key() -> (r: Result<Vec<String>, CryptoError>) {
        match process_gen_pass(32, false, false, false, false) {
            Ok(key) => {
                let mut keys: Vec<String> = Vec::new();
                keys.push(key);
                proof {
                    assert(keys.deep_view() =~= seq![keys@[0]@]);
                }
                Ok(keys)
            },
            Err(e) => Err(e),
        }
    }
}

/// The asymmetric signer: Ed25519, whose 32-byte signing-key seed
/// deterministically derives the verifying key.
pub struct Ed25519 {
    key: [u8; 32],
}

impl Ed25519 {
    /// The 32-byte signing-key seed this instance signs with.
    pub closed spec fn key_bytes(&self) -> Seq<u8> {
        self.key@
    }

    /// Builds a signer from raw key material: the first 32 bytes are the
    /// signing-key seed; shorter material is rejected before any
    /// cryptographic call.
    pub fn try_new(key: &[u8]) -> (r: Result<Ed25519, CryptoError>)
        ensures
            r is Ok <==> key@.len() >= 32,
            r matches Ok(b) ==> b.key_bytes() == key@.subrange(0, 32),
            r matches Err(e) ==> e == CryptoError::KeyShapeError,
    {
        if key.len() < 32 {
            Err(CryptoError::KeyShapeError)
        } else {
            Ok(Self::new(key_prefix_32(key)))
        }
    }

    /// Builds a signer from exactly 32 seed bytes.
    pub fn new(key: [u8; 32]) -> (r: Ed25519)
        ensures
            r.key_bytes() == key@,
    {
        Ed25519 { key }
    }
}

impl TextSigner for Ed25519 {
    open spec fn signature_matches(&self, data: Seq<char>, sig: Seq<char>) -> bool {
        ed25519_signature_text_ok(self.key_bytes(), encode_utf8(data), sig)
    }

    fn sign(&self, data: &str) -> (r: Result<String, CryptoError>) {
        let signature = ed25519_sign_bytes(&self.key, data.as_bytes());
        Ok(encode_std(signature.as_slice()))
    }
}

impl TextVerifier for Ed25519 {
    open spec fn verification_runs(&self, signed: Seq<char>) -> bool {
        ed25519_text_runs(signed)
    }

    open spec fn verdict(&self, data: Seq<char>, signed: Seq<char>) -> bool {
        ed25519_signature_text_ok(self.key_bytes(), encode_utf8(data), signed)
    }

    fn verify(&self, data: &str, signed: &str) -> (r: Result<bool, CryptoError>) {
        match decode_std(signed) {
            None => Err(CryptoError::EncodingError),
            Some(sig) => {
                if sig.len() != 64 {
                    Err(CryptoError::EncodingError)
                } else {
                    Ok(ed25519_verify_bytes(&self.key, data.as_bytes(), sig.as_slice()))
                }
            },
        }
    }
}

impl KeyGenerator for Ed25519 {
    open spec fn generated_keys_ok(keys: Seq<Seq<char>>) -> bool {
        &&& keys.len() == 2
        &&& match (b64_decode_std(keys[0]), b64_decode_std(keys[1])) {
            (Some(seed), Some(public_key)) => seed.len() == 32 && public_key.len() == 32
                && public_key == ed25519_public_of(seed),
            _ => false,
        }
    }

    fn generate_key() -> (r: Result<Vec<String>, CryptoError>) {
        let pair = ed25519_generate_pair();
        let secret_text = encode_std(pair.0.as_slice());
        let public_text = encode_std(pair.1.as_slice());
        let mut keys: Vec<String> = Vec::new();
        keys.push(secret_text);
        keys.push(public_text);
        proof {
            assert(keys.deep_view() =~= seq![keys@[0]@, keys@[1]@]);
        }
        Ok(keys)
    }
}

/// Sign/verify agreement for the keyed hash: any signature the signer
/// produces over `data` is exactly what its verifier accepts over `data`
/// under the same key.
pub proof fn lemma_keyed_hash_sign_verify(signer: Blake3, data: Seq<char>, sig: Seq<char>)
    requires
        signer.signature_matches(data, sig),
    ensures
        signer.verdict(data, sig),
{
}

/// Sign/verify agreement for the asymmetric scheme: any signature the
/// signer produces over `data` decodes to 64 bytes (so verification runs)
/// and verifies under the key derived from the same seed.
pub proof fn lemma_asymmetric_sign_verify(signer: Ed25519, data: Seq<char>, sig: Seq<char>)
    requires
        signer.signature_matches(data, sig),
    ensures
        signer.verification_runs(sig),
        signer.verdict(data, sig),
{
}

/// Determinism of the keyed hash: signing is a pure function of key and
/// data, so two signatures over the same data under the same instance are
/// equal.
pub proof fn lemma_keyed_hash_sign_deterministic(
    signer: Blake3,
    data: Seq<char>,
    sig1: Seq<char>,
    sig2: Seq<char>,
)
    requires
        signer.signature_matches(data, sig1),
        signer.signature_matches(data, sig2),
    ensures
        sig1 == sig2,
{
}

} // verus!
