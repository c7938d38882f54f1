use pbo_tools::error::PboError;
use pbo_tools::options::{check_filter, filter_is_glob, validate_filter, ExtractOptions};

#[test]
fn test_extract_options_validation() {
    // Test invalid combination: brief listing with extraction options
    let options = ExtractOptions {
        brief_listing: true,
        file_filter: Some("*.cpp".to_string()),
        ..Default::default()
    };
    assert!(matches!(options.validate(), Err(PboError::ValidationFailed(_))));

    // Test invalid file filter characters
    let options = ExtractOptions {
        file_filter: Some("*.cpp|*.hpp".to_string()),
        ..Default::default()
    };
    assert!(matches!(options.validate(), Err(PboError::ValidationFailed(_))));

    // Test valid options
    let options = ExtractOptions {
        no_pause: true,
        warnings_as_errors: true,
        file_filter: Some("*.cpp".to_string()),
        verbose: true,
        ..Default::default()
    };
    assert!(options.validate().is_ok());
}

#[test]
fn test_extract_options_factory_methods() {
    let listing = ExtractOptions::for_listing();
    assert!(listing.no_pause);
    assert!(listing.warnings_as_errors);
    assert!(!listing.brief_listing);
    assert!(listing.validate().is_ok());

    let brief = ExtractOptions::for_brief_listing();
    assert!(brief.brief_listing);
    assert!(brief.validate().is_ok());

    let extraction = ExtractOptions::for_extraction();
    assert!(extraction.no_pause);
    assert!(extraction.warnings_as_errors);
    assert!(!extraction.brief_listing);
    assert!(extraction.validate().is_ok());
}

#[test]
fn default_options_switch_everything_off() {
    let o = ExtractOptions::default();
    assert!(!o.no_pause && !o.warnings_as_errors && !o.verbose && !o.brief_listing);
    assert_eq!(o.file_filter, None);
}

#[test]
fn filter_with_quote_or_pipe_is_refused() {
    for bad in ["a\"b", "a|b", "|", "\"", "x<y", "x>y", "it's"] {
        let options = ExtractOptions { file_filter: Some(bad.to_string()), ..Default::default() };
        assert_eq!(
            options.validate(),
            Err(PboError::ValidationFailed("File filter contains invalid characters".to_string()))
        );
    }
}

#[test]
fn brief_listing_with_filter_message() {
    let options = ExtractOptions {
        brief_listing: true,
        file_filter: Some("a|b".to_string()),
        ..Default::default()
    };
    assert_eq!(
        options.validate(),
        Err(PboError::ValidationFailed(
            "Brief listing option cannot be used with extraction options".to_string()
        ))
    );
}

#[test]
fn blank_filter_is_refused() {
    for blank in ["", "   ", "\t\n"] {
        assert_eq!(
            validate_filter(blank),
            Err(PboError::ValidationFailed("File filter cannot be empty".to_string()))
        );
    }
}

#[test]
fn filter_that_is_no_regex_is_refused() {
    assert_eq!(
        validate_filter("[[invalid-regex"),
        Err(PboError::ValidationFailed("Invalid file filter pattern: [[invalid-regex".to_string()))
    );
    assert_eq!(
        validate_filter("foo(bar"),
        Err(PboError::ValidationFailed("Invalid file filter pattern: foo(bar".to_string()))
    );
}

#[test]
fn plain_names_and_globs_are_accepted() {
    assert_eq!(validate_filter("config.bin"), Ok(()));
    assert_eq!(validate_filter("nonexistent_file.txt"), Ok(()));
    assert_eq!(validate_filter("*.p3d"), Ok(()));
    assert_eq!(validate_filter("[[*"), Ok(()));
    assert_eq!(validate_filter("foo(ba?"), Ok(()));
}

#[test]
fn check_filter_follows_the_engine_answer() {
    assert_eq!(check_filter("abc", true), Ok(()));
    assert_eq!(
        check_filter("abc", false),
        Err(PboError::ValidationFailed("Invalid file filter pattern: abc".to_string()))
    );
    assert_eq!(check_filter("a*c", false), Ok(()));
    assert_eq!(
        check_filter(" ", true),
        Err(PboError::ValidationFailed("File filter cannot be empty".to_string()))
    );
}

#[test]
fn glob_detection() {
    assert!(filter_is_glob("*.paa"));
    assert!(filter_is_glob("file?.txt"));
    assert!(!filter_is_glob("file.txt"));
    assert!(!filter_is_glob(""));
}
