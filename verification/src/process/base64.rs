//! The transport codec: base64 encoding and decoding of byte payloads, in
//! the standard and the URL-safe alphabet. Binary artifacts cross the text
//! boundary only in this form.

use crate::cli::Base64Format;
use crate::errors::CryptoError;
use crate::util::bytes_to_string;
use base64::Engine;
use vstd::prelude::*;
use vstd::string::StringSliceAdditionalSpecFns;
use vstd::utf8::{decode_utf8, valid_utf8};

verus! {

/// The text that the standard (padded) base64 alphabet encodes the given
/// bytes to.
pub uninterp spec fn b64_encode_std(data: Seq<u8>) -> Seq<char>;

/// The outcome of decoding text as standard (padded) base64: the encoded
/// bytes, or `None` where the text is not valid base64.
pub uninterp spec fn b64_decode_std(text: Seq<char>) -> Option<Seq<u8>>;

/// The text that the URL-safe (padded) base64 alphabet encodes the given
/// bytes to.
pub uninterp spec fn b64_encode_url(data: Seq<u8>) -> Seq<char>;

/// The outcome of decoding text as URL-safe (padded) base64.
pub uninterp spec fn b64_decode_url(text: Seq<char>) -> Option<Seq<u8>>;

/// Relies on base64's `BASE64_STANDARD.encode`: the canonical padded base64
/// text of the input, four characters for every three bytes, which its own
/// `decode` inverts. (For any slice that fits in memory the encoded length
/// fits in `usize`, so the call cannot fail.)
#[verifier::external_body]
pub(crate) fn encode_std(data: &[u8]) -> (r: String)
    ensures
        r@ == b64_encode_std(data@),
        r@.len() == 4 * ((data@.len() + 2) / 3),
        b64_decode_std(r@) == Some(data@),
{
    base64::prelude::BASE64_STANDARD.encode(data)
}

/// Relies on base64's `BASE64_STANDARD.decode`: succeeds exactly on valid
/// padded base64 text and returns the bytes it encodes.
#[verifier::external_body]
pub(crate) fn decode_std(data: &str) -> (r: Option<Vec<u8>>)
    ensures
        r is Some <==> b64_decode_std(data@) is Some,
        r matches Some(v) ==> b64_decode_std(data@) == Some(v@),
{
    base64::prelude::BASE64_STANDARD.decode(data).ok()
}

/// Relies on base64's `BASE64_URL_SAFE.encode`, as `encode_std` relies on
/// the standard engine.
#[verifier::external_body]
pub(crate) fn encode_url(data: &[u8]) -> (r: String)
    ensures
        r@ == b64_encode_url(data@),
        r@.len() == 4 * ((data@.len() + 2) / 3),
        b64_decode_url(r@) == Some(data@),
{
    base64::prelude::BASE64_URL_SAFE.encode(data)
}

/// Relies on base64's `BASE64_URL_SAFE.decode`, as `decode_std` relies on
/// the standard engine.
#[verifier::external_body]
pub(crate) fn decode_url(data: &str) -> (r: Option<Vec<u8>>)
    ensures
        r is Some <==> b64_decode_url(data@) is Some,
        r matches Some(v) ==> b64_decode_url(data@) == Some(v@),
{
    base64::prelude::BASE64_URL_SAFE.decode(data).ok()
}

/// The base64 text of the given bytes under the chosen alphabet.
pub open spec fn base64_encoding_of(data: Seq<u8>, format: Base64Format) -> Seq<char> {
    match format {
        Base64Format::Standard => b64_encode_std(data),
        Base64Format::UrlSafe => b64_encode_url(data),
    }
}

/// The outcome of decoding base64 text under the chosen alphabet.
pub open spec fn base64_decoding_of(text: Seq<char>, format: Base64Format) -> Option<Seq<u8>> {
    match format {
        Base64Format::Standard => b64_decode_std(text),
        Base64Format::UrlSafe => b64_decode_url(text),
    }
}

/// The outcome of decoding base64 text and reading the bytes back as text:
/// `None` where the input is not valid base64 or the bytes are not valid
/// UTF-8.
pub open spec fn base64_text_decoding_of(text: Seq<char>, format: Base64Format) -> Option<
    Seq<char>,
> {
    match base64_decoding_of(text, format) {
        Some(b) => if valid_utf8(b) {
            Some(decode_utf8(b))
        } else {
            None
        },
        None => None,
    }
}

/// Encodes text to base64 under the chosen alphabet; decoding under the
/// same alphabet inverts the result.
pub fn process_base64_encode(data: &str, format: Base64Format) -> (r: Result<
    String,
    CryptoError,
>)
    ensures
        r is Ok,
        r matches Ok(s) ==> s@ == base64_encoding_of(data.spec_bytes(), format),
        r matches Ok(s) ==> base64_decoding_of(s@, format) == Some(data.spec_bytes()),
{
    match format {
        Base64Format::Standard => Ok(encode_std(data.as_bytes())),
        Base64Format::UrlSafe => Ok(encode_url(data.as_bytes())),
    }
}

/// Decodes base64 text under the chosen alphabet and reads the result back
/// as text; rejects input that is not valid base64, and decoded bytes that
/// are not valid UTF-8, with `EncodingError`.
pub fn process_base64_decode(data: &str, format: Base64Format) -> (r: Result<
    String,
    CryptoError,
>)
    ensures
        r is Ok <==> base64_text_decoding_of(data@, format) is Some,
        r matches Ok(s) ==> base64_text_decoding_of(data@, format) == Some(s@),
        r matches Err(e) ==> e == CryptoError::EncodingError,
{
    let decoded = match format {
        Base64Format::Standard => decode_std(data),
        Base64Format::UrlSafe => decode_url(data),
    };
    match decoded {
        None => Err(CryptoError::EncodingError),
        Some(v) => match bytes_to_string(v) {
            None => Err(CryptoError::EncodingError),
            Some(s) => Ok(s),
        },
    }
}

} // verus!
