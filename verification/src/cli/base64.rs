//! Options for the base64 encode/decode commands.

use vstd::prelude::*;

verus! {

/// The two base64 alphabets the codec supports.
#[derive(Clone, Copy, Debug, PartialEq, Eq, Structural)]
pub enum Base64Format {
    Standard,
    UrlSafe,
}

pub enum Base64SubCommand {
    Encode(EncodeOpts),
    Decode(DecodeOpts),
}

pub struct EncodeOpts {
    pub input: String,
    pub format: Base64Format,
}

pub struct DecodeOpts {
    pub input: String,
    pub format: Base64Format,
}

impl Base64Format {
    /// Parses the format's command-line name.
    pub fn from_str(s: &str) -> (r: Result<Base64Format, &'static str>)
        ensures
            r is Ok <==> (s@ == "standard"@ || s@ == "urlsafe"@),
            s@ == "standard"@ ==> (r matches Ok(f) && f == Base64Format::Standard),
            s@ == "urlsafe"@ ==> (r matches Ok(f) && f == Base64Format::UrlSafe),
            r matches Err(e) ==> e@ == "Invalid format"@,
    {
        proof {
            reveal_strlit("standard");
            reveal_strlit("urlsafe");
            assert("standard"@.len() != "urlsafe"@.len());
        }
        if s.to_owned() == "standard".to_owned() {
            Ok(Base64Format::Standard)
        } else if s.to_owned() == "urlsafe".to_owned() {
            Ok(Base64Format::UrlSafe)
        } else {
            Err("Invalid format")
        }
    }

    /// The command-line name of the format.
    pub fn as_str(&self) -> (r: &'static str)
        ensures
            r@ == (match self {
                Base64Format::Standard => "standard"@,
                Base64Format::UrlSafe => "urlsafe"@,
            }),
    {
        match self {
            Base64Format::Standard => "standard",
            Base64Format::UrlSafe => "urlsafe",
        }
    }
}

/// Parses a base64 format name, as the command line supplies it.
pub fn parse_base64_format(format: &str) -> (r: Result<Base64Format, &'static str>)
    ensures
        r is Ok <==> (format@ == "standard"@ || format@ == "urlsafe"@),
        format@ == "standard"@ ==> (r matches Ok(f) && f == Base64Format::Standard),
        format@ == "urlsafe"@ ==> (r matches Ok(f) && f == Base64Format::UrlSafe),
        r matches Err(e) ==> e@ == "Invalid format"@,
{
    Base64Format::from_str(format)
}

} // verus!
