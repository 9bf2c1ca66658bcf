pub mod cli;
pub mod codec;
pub mod crypto;
pub mod process;
pub mod strutil;

pub use cli::{verify_file, verify_input_file, Opts, OutputFormat, SubCommand};
pub use cli::csv::CsvOpts;
pub use cli::text::{
    TextKeyGenerateOpts, TextSignFormat, TextSignOpts, TextSubCommand, TextVerifyOpts,
};
pub use process::text::{
    process_text_key_generate, process_text_sign, process_text_verify, KeyMaterial, TextError,
};
