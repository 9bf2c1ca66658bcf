pub mod csv;
pub mod text;

use vstd::prelude::*;

use crate::strutil::str_eq;

pub use csv::OutputFormat;
pub use text::{TextSignFormat, TextSubCommand};

verus! {

/// Top-level invocation: one subcommand per run.
pub struct Opts {
    pub cmd: SubCommand,
}

/// The subcommands this tool offers.
pub enum SubCommand {
    Csv(csv::CsvOpts),
    Text(text::TextSubCommand),
}

/// Relies on std::path::Path::exists: whether the name denotes an existing
/// filesystem entry at the moment of the call. Nothing is promised of the
/// result, since it depends on the state of the disk.
#[verifier::external_body]
fn path_exists(name: &str) -> bool {
    std::path::Path::new(name).exists()
}

/// Accepts the standard-input sentinel `-` unconditionally, and any other name
/// only when it denotes an existing filesystem entry.
pub fn verify_file(filename: &str) -> (r: Result<String, &'static str>)
    ensures
        filename@ == "-"@ ==> r is Ok,
        r matches Ok(s) ==> s@ == filename@,
        r matches Err(e) ==> filename@ != "-"@ && e@ == "File does not exist"@,
{
    if str_eq(filename, "-") || path_exists(filename) {
        Ok(filename.to_owned())
    } else {
        Err("File does not exist")
    }
}

/// Accepts only a name that denotes an existing filesystem entry; the
/// standard-input sentinel gets no special treatment here.
pub fn verify_input_file(filename: &str) -> (r: Result<String, &'static str>)
    ensures
        r matches Ok(s) ==> s@ == filename@,
        r matches Err(e) ==> e@ == "File does not exist"@,
{
    if path_exists(filename) {
        Ok(filename.to_owned())
    } else {
        Err("File does not exist")
    }
}

} // verus!
