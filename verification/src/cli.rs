//! Option types for the command-line surface, and the validators used to
//! parse them. Only the pure parts live here; reading files and running
//! commands is the caller's business.

pub mod base64;
pub mod cvs;
pub mod gen_pass;
pub mod text;

pub use self::base64::{
    parse_base64_format, Base64Format, Base64SubCommand, DecodeOpts, EncodeOpts,
};
pub use self::cvs::{CsvOpts, OutputFormat};
pub use self::gen_pass::GenPassOpts;
pub use self::text::{
    DecryptOpts, EncryptOpts, GenerateKeytOpts, SignOpts, TextSignFormat, TextSubCommand,
    VerifytOpts,
};

use vstd::prelude::*;

verus! {

/// Relies on `std::path::Path::exists`; the result depends on the state of
/// the file system, so nothing is promised of it.
#[verifier::external_body]
fn path_exists(name: &str) -> bool {
    std::path::Path::new(name).exists()
}

/// Relies on `std::path::Path::is_dir`; the result depends on the state of
/// the file system, so nothing is promised of it.
#[verifier::external_body]
fn path_is_dir(name: &str) -> bool {
    std::path::Path::new(name).is_dir()
}

/// Accepts `"-"` (standard input) or the name of an existing file, and hands
/// the accepted name back unchanged.
pub fn verify_file(file_name: &str) -> (r: Result<String, &'static str>)
    ensures
        file_name@ == "-"@ ==> r is Ok,
        r matches Ok(s) ==> s@ == file_name@,
        r matches Err(e) ==> e@ == "File does not exist"@ && file_name@ != "-"@,
{
    if file_name.to_owned() == "-".to_owned() || path_exists(file_name) {
        Ok(file_name.to_owned())
    } else {
        Err("File does not exist")
    }
}

/// Accepts the name of an existing directory, and hands the accepted name
/// back unchanged.
pub fn verify_path(path_name: &str) -> (r: Result<String, &'static str>)
    ensures
        r matches Ok(s) ==> s@ == path_name@,
        r matches Err(e) ==> e@ == "Path does not exist"@,
{
    if path_exists(path_name) && path_is_dir(path_name) {
        Ok(path_name.to_owned())
    } else {
        Err("Path does not exist")
    }
}

} // verus!
