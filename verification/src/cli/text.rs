//! Options for the text encryption, signing and key generation commands.

use vstd::prelude::*;

verus! {

/// The closed set of signature algorithms. The same tag selects the signer,
/// the verifier and the key generator, so one configuration value drives all
/// three capabilities consistently.
#[derive(Clone, Copy, Debug, PartialEq, Eq, Structural)]
pub enum TextSignFormat {
    Blake3,
    Ed25519,
}

pub enum TextSubCommand {
    Encrypt(EncryptOpts),
    Decrypt(DecryptOpts),
    Sign(SignOpts),
    Verify(VerifytOpts),
    GenerateKey(GenerateKeytOpts),
}

pub struct EncryptOpts {
    pub input: String,
}

pub struct DecryptOpts {
    pub input: String,
    pub key_base64: String,
    pub nonce_base64: String,
}

pub struct SignOpts {
    pub input: String,
    pub key: String,
    pub format: TextSignFormat,
}

pub struct VerifytOpts {
    pub input: String,
    pub signed: String,
    pub key: String,
    pub format: TextSignFormat,
}

pub struct GenerateKeytOpts {
    pub format: TextSignFormat,
    pub path: String,
}

impl TextSignFormat {
    /// Parses the algorithm's command-line name.
    pub fn from_str(s: &str) -> (r: Result<TextSignFormat, &'static str>)
        ensures
            r is Ok <==> (s@ == "blake3"@ || s@ == "ed25519"@),
            s@ == "blake3"@ ==> (r matches Ok(f) && f == TextSignFormat::Blake3),
            s@ == "ed25519"@ ==> (r matches Ok(f) && f == TextSignFormat::Ed25519),
            r matches Err(e) ==> e@ == "Invalid format"@,
    {
        proof {
            reveal_strlit("blake3");
            reveal_strlit("ed25519");
            assert("blake3"@.len() != "ed25519"@.len());
        }
        if s.to_owned() == "blake3".to_owned() {
            Ok(TextSignFormat::Blake3)
        } else if s.to_owned() == "ed25519".to_owned() {
            Ok(TextSignFormat::Ed25519)
        } else {
            Err("Invalid format")
        }
    }

    /// The command-line name of the algorithm.
    pub fn as_str(&self) -> (r: &'static str)
        ensures
            r@ == (match self {
                TextSignFormat::Blake3 => "blake3"@,
                TextSignFormat::Ed25519 => "ed25519"@,
            }),
    {
        match self {
            TextSignFormat::Blake3 => "blake3",
            TextSignFormat::Ed25519 => "ed25519",
        }
    }
}

/// Parses a signature algorithm name, as the command line supplies it.
pub fn parse_format(format: &str) -> (r: Result<TextSignFormat, &'static str>)
    ensures
        r is Ok <==> (format@ == "blake3"@ || format@ == "ed25519"@),
        format@ == "blake3"@ ==> (r matches Ok(f) && f == TextSignFormat::Blake3),
        format@ == "ed25519"@ ==> (r matches Ok(f) && f == TextSignFormat::Ed25519),
        r matches Err(e) ==> e@ == "Invalid format"@,
{
    TextSignFormat::from_str(format)
}

} // verus!
