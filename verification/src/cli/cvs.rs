//! Options for the CSV conversion command.

use vstd::prelude::*;

verus! {

/// The structured output formats the CSV converter can target.
#[derive(Clone, Copy, Debug, PartialEq, Eq, Structural)]
pub enum OutputFormat {
    Json,
    Yaml,
    Toml,
    Proto,
}

pub struct CsvOpts {
    pub input: String,
    pub output: Option<String>,
    pub format: OutputFormat,
    pub delimiter: char,
    pub header: bool,
}

impl OutputFormat {
    /// Parses the format's command-line name.
    pub fn from_str(s: &str) -> (r: Result<OutputFormat, &'static str>)
        ensures
            r is Ok <==> (s@ == "json"@ || s@ == "yaml"@ || s@ == "toml"@ || s@ == "proto"@),
            s@ == "json"@ ==> (r matches Ok(f) && f == OutputFormat::Json),
            s@ == "yaml"@ ==> (r matches Ok(f) && f == OutputFormat::Yaml),
            s@ == "toml"@ ==> (r matches Ok(f) && f == OutputFormat::Toml),
            s@ == "proto"@ ==> (r matches Ok(f) && f == OutputFormat::Proto),
            r matches Err(e) ==> e@ == "Invalid format"@,
    {
        proof {
            reveal_strlit("json");
            reveal_strlit("yaml");
            reveal_strlit("toml");
            reveal_strlit("proto");
            assert(("json"@)[0] != ("yaml"@)[0]);
            assert(("json"@)[0] != ("toml"@)[0]);
            assert(("yaml"@)[0] != ("toml"@)[0]);
            assert("json"@.len() != "proto"@.len());
            assert("yaml"@.len() != "proto"@.len());
            assert("toml"@.len() != "proto"@.len());
        }
        if s.to_owned() == "json".to_owned() {
            Ok(OutputFormat::Json)
        } else if s.to_owned() == "yaml".to_owned() {
            Ok(OutputFormat::Yaml)
        } else if s.to_owned() == "toml".to_owned() {
            Ok(OutputFormat::Toml)
        } else if s.to_owned() == "proto".to_owned() {
            Ok(OutputFormat::Proto)
        } else {
            Err("Invalid format")
        }
    }

    /// The command-line name of the format.
    pub fn as_str(&self) -> (r: &'static str)
        ensures
            r@ == (match self {
                OutputFormat::Json => "json"@,
                OutputFormat::Yaml => "yaml"@,
                OutputFormat::Toml => "toml"@,
                OutputFormat::Proto => "proto"@,
            }),
    {
        match self {
            OutputFormat::Json => "json",
            OutputFormat::Yaml => "yaml",
            OutputFormat::Toml => "toml",
            OutputFormat::Proto => "proto",
        }
    }
}

/// Parses an output format name, as the command line supplies it.
pub fn parse_format(format: &str) -> (r: Result<OutputFormat, &'static str>)
    ensures
        r is Ok <==> (format@ == "json"@ || format@ == "yaml"@ || format@ == "toml"@ || format@
            == "proto"@),
        r matches Err(e) ==> e@ == "Invalid format"@,
{
    OutputFormat::from_str(format)
}

} // verus!
