use pbo_tools::cli::{Cli, CliProcessor, Commands};
use pbo_tools::error::{ExtractError, PboError};
use pbo_tools::result::ExtractResult;

fn list(brief: bool, verbose: bool) -> Commands {
    Commands::List { pbo_path: "a.pbo".to_string(), brief, verbose }
}

fn extract(filter: Option<&str>, verbose: bool, ignore_warnings: bool) -> Commands {
    Commands::Extract {
        pbo_path: "a.pbo".to_string(),
        output_dir: "out".to_string(),
        filter: filter.map(|f| f.to_string()),
        keep_pbo_name: false,
        verbose,
        ignore_warnings,
    }
}

#[test]
fn options_of_a_list_command() {
    let cli = CliProcessor::new(10);
    let o = cli.options_for(&list(true, false));
    assert!(o.no_pause && o.warnings_as_errors && o.brief_listing && !o.verbose);
    assert_eq!(o.file_filter, None);
    let o = cli.options_for(&list(false, true));
    assert!(o.no_pause && o.warnings_as_errors && !o.brief_listing && o.verbose);
    assert_eq!(cli.api().timeout_seconds(), 10);
}

#[test]
fn options_of_an_extract_command() {
    let cli = CliProcessor::new(0);
    let o = cli.options_for(&extract(Some("*.paa"), true, true));
    assert!(o.no_pause && !o.warnings_as_errors && o.verbose && !o.brief_listing);
    assert_eq!(o.file_filter, Some("*.paa".to_string()));
    let o = cli.options_for(&extract(None, false, false));
    assert!(o.no_pause && o.warnings_as_errors && !o.verbose);
    assert_eq!(o.file_filter, None);
    assert_eq!(cli.api().timeout_seconds(), 1);
}

#[test]
fn report_of_a_listing() {
    let cli = CliProcessor::new(10);
    let result = ExtractResult {
        return_code: 0,
        stdout: "prefix=tc\\mirrorform;\nconfig.bin\nuniform\\mirror.p3d\n".to_string(),
        stderr: String::new(),
    };
    assert_eq!(
        cli.report(&list(false, false), &result),
        Ok(vec![
            "Files in PBO:".to_string(),
            "  config.bin".to_string(),
            "  uniform/mirror.p3d".to_string(),
        ])
    );
}

#[test]
fn report_of_an_extraction() {
    let cli = CliProcessor::new(10);
    let result = ExtractResult {
        return_code: 0,
        stdout: "prefix=tc\\mirrorform;\nExtracting config.bin...\n".to_string(),
        stderr: String::new(),
    };
    assert_eq!(
        cli.report(&extract(None, false, false), &result),
        Ok(vec![
            "Extracted files:".to_string(),
            "  config.bin".to_string(),
            "\nPBO Prefix: tc\\mirrorform".to_string(),
        ])
    );
    let bare = ExtractResult { return_code: 0, stdout: String::new(), stderr: String::new() };
    assert_eq!(
        cli.report(&extract(None, false, false), &bare),
        Ok(vec!["Extracted files:".to_string()])
    );
}

#[test]
fn report_of_a_failed_run() {
    let cli = CliProcessor::new(10);
    let result = ExtractResult {
        return_code: 1,
        stdout: "config.bin".to_string(),
        stderr: "boom".to_string(),
    };
    let expected = Err(PboError::Extraction(ExtractError::CommandFailed {
        cmd: "extractpbo".to_string(),
        reason: "boom\nCommand failed with return code 1".to_string(),
    }));
    assert_eq!(cli.report(&list(false, false), &result), expected);
    assert_eq!(cli.report(&extract(None, false, false), &result), expected);
}

#[test]
fn command_line_holds_command_and_timeout() {
    let cli = Cli { command: list(false, false), timeout: 30 };
    assert_eq!(cli.timeout, 30);
    assert_eq!(cli.command, list(false, false));
}
