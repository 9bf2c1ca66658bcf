use rcli::cli::csv;
use rcli::cli::text;
use rcli::{
    verify_file, verify_input_file, CsvOpts, Opts, OutputFormat, SubCommand, TextSignFormat,
    TextSignOpts, TextSubCommand,
};

#[test]
fn test_verify_input_file() {
    assert_eq!(verify_file("-"), Ok("-".into()));
    assert_eq!(verify_file("*"), Err("File does not exist"));
    // A test run's working directory need not be the package root, so the
    // existing-file case uses a source file that sits beside the tests
    // wherever they run.
    assert_eq!(verify_file("src/lib.rs"), Ok("src/lib.rs".into()));
    assert_eq!(verify_file("nonexistent"), Err("File does not exist"));
}

#[test]
fn test_verify_input_file_rejects_sentinel_without_file() {
    // Unlike verify_file, the plain input check gives `-` no special meaning.
    assert_eq!(verify_input_file("-"), Err("File does not exist"));
    assert_eq!(verify_input_file("src/lib.rs"), Ok("src/lib.rs".into()));
}

#[test]
fn test_parse_text_format() {
    assert_eq!(text::parse_format("blake3"), Ok(TextSignFormat::Blake3));
    assert_eq!(text::parse_format("ed25519"), Ok(TextSignFormat::Ed25519));
    assert_eq!(text::parse_format("Blake3"), Err("Invalid format"));
    assert_eq!(text::parse_format("sha256"), Err("Invalid format"));
    assert_eq!(text::parse_format(""), Err("Invalid format"));
}

#[test]
fn test_parse_output_format() {
    assert_eq!(csv::parse_format("json"), Ok(OutputFormat::Json));
    assert_eq!(csv::parse_format("yaml"), Ok(OutputFormat::Yaml));
    assert_eq!(csv::parse_format("toml"), Err("Invalid format"));
}

#[test]
fn test_option_types_carry_their_fields() {
    let opts = Opts {
        cmd: SubCommand::Text(TextSubCommand::Sign(TextSignOpts {
            input: "-".to_string(),
            key: "key.bin".to_string(),
            format: TextSignFormat::Blake3,
        })),
    };
    match opts.cmd {
        SubCommand::Text(TextSubCommand::Sign(sign)) => {
            assert_eq!(sign.input, "-");
            assert_eq!(sign.key, "key.bin");
            assert_eq!(sign.format, TextSignFormat::Blake3);
        }
        _ => panic!("the subcommand built above must come back out"),
    }
    let csv_opts = CsvOpts {
        input: "players.csv".to_string(),
        output: None,
        format: OutputFormat::Json,
        delimiter: ',',
        header: true,
    };
    assert_eq!(csv_opts.format, OutputFormat::Json);
    assert!(csv_opts.output.is_none());
}

#[test]
fn test_format_tokens_round_trip() {
    assert_eq!(TextSignFormat::Blake3.as_str(), "blake3");
    assert_eq!(TextSignFormat::Ed25519.as_str(), "ed25519");
    assert_eq!(
        text::parse_format(TextSignFormat::Blake3.as_str()),
        Ok(TextSignFormat::Blake3)
    );
    assert_eq!(OutputFormat::Json.as_str(), "json");
    assert_eq!(OutputFormat::Yaml.as_str(), "yaml");
}
