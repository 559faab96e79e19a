//! Text cryptography utilities: authenticated symmetric encryption and
//! decryption of text, keyed and asymmetric message signing and verification,
//! key generation, and the base64 transport codec that carries binary
//! results across text boundaries.

pub mod cli;
pub mod errors;
pub mod process;
pub mod util;

pub use cli::{
    parse_base64_format, verify_file, verify_path, Base64Format, Base64SubCommand, CsvOpts,
    DecodeOpts, DecryptOpts, EncodeOpts, EncryptOpts, GenPassOpts, GenerateKeytOpts, OutputFormat,
    SignOpts, TextSignFormat, TextSubCommand, VerifytOpts,
};
pub use errors::CryptoError;
pub use process::{
    process_base64_decode, process_base64_encode, process_gen_pass, process_text_decrypt,
    process_text_encrypt, process_text_generate_key, process_text_sign, process_text_verify,
    Blake3, ChaCha20Poly1305, Ed25519, EncryptResult, KeyGenerator, TextDecrypor, TextEncryptor,
    TextSigner, TextVerifier,
};
