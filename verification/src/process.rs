//! The operations behind each command: the base64 transport codec, the
//! authenticated symmetric cipher, password generation, and keyed and
//! asymmetric signing with their key generators.

pub mod base64;
pub mod encrypt_decrypt;
pub mod gen_pass;
pub mod signer_verifier;
pub mod text;

pub use self::gen_pass::process_gen_pass;
pub use self::text::{process_text_decrypt, process_text_encrypt, process_text_generate_key,
    process_text_sign, process_text_verify};
pub use self::signer_verifier::{Blake3, Ed25519, KeyGenerator, TextSigner, TextVerifier};
pub use self::encrypt_decrypt::{ChaCha20Poly1305, EncryptResult, TextDecrypor, TextEncryptor};
pub use self::base64::{b64_decode_std, b64_decode_url, b64_encode_std, b64_encode_url,
    base64_decoding_of, base64_encoding_of, base64_text_decoding_of, process_base64_decode,
    process_base64_encode};
