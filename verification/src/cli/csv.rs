use vstd::prelude::*;

use crate::strutil::str_eq;

verus! {

/// Output format for the tabular conversion subcommand.
#[derive(Debug, Clone, Copy, PartialEq, Eq, Structural)]
pub enum OutputFormat {
    Json,
    Yaml,
}

/// Options for the csv subcommand.
pub struct CsvOpts {
    pub input: String,
    pub output: Option<String>,
    pub format: OutputFormat,
    pub delimiter: char,
    pub header: bool,
}

impl OutputFormat {
    /// Parses the case-sensitive format token; any other token is refused.
    pub fn from_str(s: &str) -> (r: Result<OutputFormat, &'static str>)
        ensures
            s@ == "json"@ ==> r == Ok::<OutputFormat, &'static str>(OutputFormat::Json),
            s@ == "yaml"@ ==> r == Ok::<OutputFormat, &'static str>(OutputFormat::Yaml),
            r matches Err(e) ==> s@ != "json"@ && s@ != "yaml"@ && e@ == "Invalid format"@,
            r == Ok::<OutputFormat, &'static str>(OutputFormat::Json) ==> s@ == "json"@,
            r == Ok::<OutputFormat, &'static str>(OutputFormat::Yaml) ==> s@ == "yaml"@,
    {
        proof {
            reveal_strlit("json");
            reveal_strlit("yaml");
            assert("json"@[0] != "yaml"@[0]);
            assert("json"@ != "yaml"@);
        }
        if str_eq(s, "json") {
            Ok(OutputFormat::Json)
        } else if str_eq(s, "yaml") {
            Ok(OutputFormat::Yaml)
        } else {
            Err("Invalid format")
        }
    }

    /// The token that [`OutputFormat::from_str`] maps back to this format.
    pub fn as_str(&self) -> (r: &'static str)
        ensures
            *self == OutputFormat::Json ==> r@ == "json"@,
            *self == OutputFormat::Yaml ==> r@ == "yaml"@,
    {
        match self {
            OutputFormat::Json => "json",
            OutputFormat::Yaml => "yaml",
        }
    }
}

/// Value parser for the format argument of the csv subcommand.
pub fn parse_format(format: &str) -> (r: Result<OutputFormat, &'static str>)
    ensures
        format@ == "json"@ ==> r == Ok::<OutputFormat, &'static str>(OutputFormat::Json),
        format@ == "yaml"@ ==> r == Ok::<OutputFormat, &'static str>(OutputFormat::Yaml),
        r matches Err(e) ==> format@ != "json"@ && format@ != "yaml"@ && e@ == "Invalid format"@,
        r == Ok::<OutputFormat, &'static str>(OutputFormat::Json) ==> format@ == "json"@,
        r == Ok::<OutputFormat, &'static str>(OutputFormat::Yaml) ==> format@ == "yaml"@,
{
    OutputFormat::from_str(format)
}

} // verus!
