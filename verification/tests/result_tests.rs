use pbo_tools::result::{extract_prefix, ExtractResult, ResultProcessor};
use pbo_tools::error::{ExtractError, PboError};

fn result(code: i32, out: &str, err: &str) -> ExtractResult {
    ExtractResult { return_code: code, stdout: out.to_string(), stderr: err.to_string() }
}

#[test]
fn test_error_detection() {
    let result = ExtractResult {
        return_code: 0,
        stdout: String::new(),
        stderr: "Bad Sha detected".to_string(),
    };
    assert!(!result.is_success());

    let result = ExtractResult {
        return_code: 0,
        stdout: String::new(),
        stderr: String::new(),
    };
    assert!(result.is_success());
}

#[test]
fn test_file_list_parsing() {
    let result = ExtractResult {
        return_code: 0,
        stdout: "config.bin\ndata/test.paa\nmodels/model.p3d".to_string(),
        stderr: String::new(),
    };

    let files = result.get_file_list();
    assert_eq!(files.len(), 3);
    assert!(files.contains(&"config.bin".to_string()));
    assert!(files.contains(&"data/test.paa".to_string()));
    assert!(files.contains(&"models/model.p3d".to_string()));
}

#[test]
fn nonzero_exit_code_always_fails() {
    assert!(!result(1, "", "").is_success());
    assert!(!result(-1, "config.bin", "").is_success());
    assert!(!result(2, "all fine", "no shakey on arma").is_success());
}

#[test]
fn known_warning_does_not_fail_a_clean_run() {
    let r = result(0, "config.bin", "arma pbo is missing a prefix");
    assert!(r.has_known_warnings());
    assert!(!r.has_error_indicators());
    assert!(r.is_success());
    assert_eq!(r.get_error_message(), None);
}

#[test]
fn indicator_in_either_stream_fails_with_exit_code_zero() {
    assert!(!result(0, "residual bytes in file", "").is_success());
    assert!(!result(0, "", "Cannot open archive").is_success());
    assert!(!result(0, "DePbo:Pbo unknown header type", "").is_success());
    assert!(!result(0, "", "this warning is set as an error").is_success());
    assert!(!result(0, "Operation Failed", "").is_success());
    assert!(!result(0, "", "Error").is_success());
}

#[test]
fn file_list_is_the_same_when_asked_twice() {
    let r = result(0, "prefix=x;\nconfig.bin:2020: 12\n\nuniform\\mirror.p3d\n", "");
    let first = r.get_file_list();
    let second = r.get_file_list();
    assert_eq!(first, second);
    assert_eq!(first, vec!["config.bin".to_string(), "uniform/mirror.p3d".to_string()]);
}

#[test]
fn file_list_skips_metadata_and_blank_lines() {
    let out = "Active code page: 65001\r\nExtractPbo Version 2.20\r\nOpening pbo archive\r\n\
prefix=tc\\mirrorform;\r\nMikero=DePbo.dll;\r\nversion=1;\r\nPboType=Arma;\r\n==========\r\n\
// comment\r\nCreated by someone\r\nAuthor: me\r\nBinPatches=0\r\nReportInvalidFiles=0\r\n\
SearchForBinFiles=0\r\n   \r\nconfig.bin:2024-01-01: 120 bytes\r\n  uniform\\mirror.p3d  \r\n";
    let files = result(0, out, "").get_file_list();
    assert_eq!(files, vec!["config.bin".to_string(), "uniform/mirror.p3d".to_string()]);
}

#[test]
fn file_list_reads_extraction_lines() {
    let files = result(0, "Extracting data\\a.paa...\nExtracting b.cpp......\nExtracting ...\n", "")
        .get_file_list();
    assert_eq!(files, vec!["data/a.paa".to_string(), "b.cpp".to_string()]);
}

#[test]
fn file_list_of_empty_output_is_empty() {
    assert!(result(0, "", "").get_file_list().is_empty());
    assert!(result(0, "\n\n", "").get_file_list().is_empty());
    assert!(result(0, ":only a colon", "").get_file_list().is_empty());
}

#[test]
fn prefix_examples() {
    assert_eq!(extract_prefix("prefix=tc/mirrorform;\nother"), Some("tc/mirrorform".to_string()));
    assert_eq!(extract_prefix(""), None);
    assert_eq!(extract_prefix("prefix=first;prefix=second;"), Some("first".to_string()));
}

#[test]
fn test_core_extract_prefix() {
    let sample_output = "prefix=tc/mirrorform;\nSome other content";
    let prefix = extract_prefix(sample_output);
    assert_eq!(prefix, Some("tc/mirrorform".to_string()));
}

#[test]
fn prefix_edge_cases() {
    assert_eq!(extract_prefix("prefix="), None);
    assert_eq!(extract_prefix("prefix=  ;"), None);
    assert_eq!(
        extract_prefix("prefix=test\\path with spaces;"),
        Some("test\\path with spaces".to_string())
    );
    assert_eq!(extract_prefix("banner\r\nprefix= abc \r\nprefix=def;"), Some("abc".to_string()));
    assert_eq!(extract_prefix("  prefix=indented;"), None);
    assert_eq!(extract_prefix("no marker here"), None);
    assert_eq!(extract_prefix("prefix=;\nprefix=later;"), None);
    assert_eq!(result(0, "prefix=tc\\mirrorform;\n", "").get_prefix(), Some("tc\\mirrorform".to_string()));
}

#[test]
fn error_message_forms() {
    assert_eq!(
        result(1, "", "boom").get_error_message(),
        Some("boom\nCommand failed with return code 1".to_string())
    );
    assert_eq!(
        result(-3, "", "").get_error_message(),
        Some("Command failed with return code -3".to_string())
    );
    assert_eq!(
        result(i32::MIN, "", "").get_error_message(),
        Some("Command failed with return code -2147483648".to_string())
    );
    assert_eq!(result(0, "", "Bad Sha").get_error_message(), Some("Bad Sha".to_string()));
    assert_eq!(
        result(0, "Bad Sha", "").get_error_message(),
        Some("Unknown error occurred".to_string())
    );
    assert_eq!(result(0, "fine", "").get_error_message(), None);
}

#[test]
fn mod_test_extract_result_display() {
    let success_result = ExtractResult {
        return_code: 0,
        stdout: "Test output".to_string(),
        stderr: String::new(),
    };

    let error_result = ExtractResult {
        return_code: 1,
        stdout: String::new(),
        stderr: "Test error".to_string(),
    };

    assert_eq!(success_result.to_string(), "Test output");
    assert_eq!(error_result.to_string(), "Error (1): Test error");
}

#[test]
fn test_extract_test_extract_result_display() {
    let success = ExtractResult {
        return_code: 0,
        stdout: "Success output".to_string(),
        stderr: "".to_string(),
    };
    assert_eq!(success.to_string(), "Success output");

    let error = ExtractResult {
        return_code: 1,
        stdout: "".to_string(),
        stderr: "Error message".to_string(),
    };
    assert_eq!(error.to_string(), "Error (1): Error message");
}

#[test]
fn test_extract_result_display() {
    let success_result = ExtractResult {
        return_code: 0,
        stdout: "Test output".to_string(),
        stderr: String::new(),
    };

    let error_result = ExtractResult {
        return_code: 1,
        stdout: String::new(),
        stderr: "Test error".to_string(),
    };

    assert_eq!(success_result.to_string(), "Test output");
    assert_eq!(error_result.to_string(), "Error (1): Test error");
}

#[test]
fn display_joins_both_streams() {
    assert_eq!(result(0, " a \n", " w ").to_string(), "a\nw");
    assert_eq!(result(0, "", " w ").to_string(), "w");
    assert_eq!(result(2, " out ", " err ").to_string(), "Error (2): out\nerr");
    assert_eq!(result(2, "  ", "").to_string(), "Error (2): Unknown error");
    assert_eq!(result(120, "", "x").to_string(), "Error (120): x");
}

#[test]
fn process_output_cases() {
    assert_eq!(
        result(0, "a.txt\nb.txt", "").process_output(),
        Ok(vec!["a.txt".to_string(), "b.txt".to_string()])
    );
    assert_eq!(
        result(0, "prefix=x;", "").process_output(),
        Err(PboError::Extraction(ExtractError::NoFiles))
    );
    assert_eq!(
        result(1, "a.txt", "bad").process_output(),
        Err(PboError::Extraction(ExtractError::CommandFailed {
            cmd: "extractpbo".to_string(),
            reason: "bad\nCommand failed with return code 1".to_string(),
        }))
    );
    assert_eq!(result(0, "prefix=p;", "").process_prefix(), Some("p".to_string()));
}

#[test]
fn first_indicator_in_list_order_decides() {
    assert_eq!(result(0, "Bad Sha", "Cannot open").first_error_indicator(), Some("Cannot open"));
    assert_eq!(result(0, "Failed", "residual bytes in file").first_error_indicator(), Some("Failed"));
    assert_eq!(result(0, "Error and Failed", "").first_error_indicator(), Some("Error"));
    assert_eq!(
        result(0, "DePbo:Pbo unknown header type", "").first_error_indicator(),
        Some("unknown header type")
    );
    assert_eq!(result(0, "fine", "no shakey on arma").first_error_indicator(), None);
    assert_eq!(result(5, "", "").first_error_indicator(), None);
}

#[test]
fn indicators_match_by_case() {
    assert!(result(0, "error", "failed").is_success());
    assert!(result(0, "bad sha", "").is_success());
    assert!(!result(0, "Errors", "").is_success());
}

#[test]
fn summary_picks_the_stream_by_exit_code() {
    assert_eq!(result(0, "out", "err").summary(), (true, "out".to_string()));
    assert_eq!(result(2, "out", "err").summary(), (false, "err".to_string()));
}

#[test]
fn lines_end_at_line_feeds_only() {
    assert_eq!(
        result(0, "a.txt\r\nb.txt\rc.txt\n\r\nd.txt", "").get_file_list(),
        vec!["a.txt".to_string(), "b.txt\rc.txt".to_string(), "d.txt".to_string()]
    );
}

#[test]
fn unicode_whitespace_is_trimmed() {
    assert_eq!(
        result(0, "\u{a0}\u{3000} a.txt \u{2003}\t\n", "").get_file_list(),
        vec!["a.txt".to_string()]
    );
    assert_eq!(extract_prefix("prefix=\u{2028}p\u{85};"), Some("p".to_string()));
    // A zero-width space is no whitespace.
    assert_eq!(extract_prefix("prefix=\u{200b};"), Some("\u{200b}".to_string()));
}

#[test]
fn detailed_lines_are_cut_at_the_first_colon() {
    assert_eq!(
        result(0, "data\\a.paa:2024-01-01 10:00:00: 120 bytes\n  b c.txt : x\n", "").get_file_list(),
        vec!["data/a.paa".to_string(), "b c.txt".to_string()]
    );
}

#[test]
fn marker_inside_a_line_is_no_metadata() {
    assert_eq!(
        result(0, "docs/version=2.txt\nsrc//x\n//src\nmy prefix=1\n", "").get_file_list(),
        vec!["docs/version=2.txt".to_string(), "src//x".to_string(), "my prefix=1".to_string()]
    );
}
