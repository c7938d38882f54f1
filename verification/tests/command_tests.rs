use pbo_tools::command::{
    clean_path, make_core_token, path_has_archive_extension, DefaultExtractor, InvocationRequest,
    Operation, SpawnFailure,
};
use pbo_tools::error::{ExtractError, FileSystemError, PboError};
use pbo_tools::options::ExtractOptions;
use pbo_tools::paths::PathProbe;
use pbo_tools::result::ExtractResult;

fn strings(items: &[&str]) -> Vec<String> {
    items.iter().map(|s| s.to_string()).collect()
}

fn archive(path: &str) -> PathProbe {
    PathProbe::file(path.to_string(), 100)
}

#[test]
fn listing_flags_in_canonical_form() {
    let x = DefaultExtractor::new();
    assert_eq!(x.listing_flags(&ExtractOptions::for_listing()), Ok(strings(&["-PW", "-L"])));
    assert_eq!(x.listing_flags(&ExtractOptions::for_brief_listing()), Ok(strings(&["-PW", "-LB"])));
    assert_eq!(x.listing_flags(&ExtractOptions::default()), Ok(strings(&["-L"])));
    let noisy = ExtractOptions { verbose: true, ..ExtractOptions::for_listing() };
    assert_eq!(x.listing_flags(&noisy), Ok(strings(&["-PWN", "-L"])));
}

#[test]
fn extraction_flags_in_canonical_form() {
    let x = DefaultExtractor::new();
    assert_eq!(x.extraction_flags(&ExtractOptions::for_extraction()), Ok(strings(&["-PW"])));
    let filtered = ExtractOptions::for_filtered_extraction(Some("*.paa".to_string()));
    assert_eq!(x.extraction_flags(&filtered), Ok(strings(&["-PW", "-F=*.paa"])));
    let bare = ExtractOptions { file_filter: Some("a.txt".to_string()), ..Default::default() };
    assert_eq!(x.extraction_flags(&bare), Ok(strings(&["-F=a.txt"])));
    let only_noise = ExtractOptions { verbose: true, ..Default::default() };
    assert_eq!(x.extraction_flags(&only_noise), Ok(strings(&["-N"])));
}

#[test]
fn flags_are_refused_with_bad_options() {
    let x = DefaultExtractor::new();
    let bad = ExtractOptions::for_filtered_extraction(Some("a\"b".to_string()));
    assert_eq!(
        x.extraction_flags(&bad),
        Err(PboError::ValidationFailed("File filter contains invalid characters".to_string()))
    );
    let piped = ExtractOptions::for_filtered_extraction(Some("a|b".to_string()));
    assert!(matches!(x.extraction_flags(&piped), Err(PboError::ValidationFailed(_))));
    assert!(matches!(x.listing_flags(&piped), Err(PboError::ValidationFailed(_))));
}

#[test]
fn core_token_letters() {
    assert_eq!(make_core_token(false, false, false), None);
    assert_eq!(make_core_token(true, false, false), Some("-P".to_string()));
    assert_eq!(make_core_token(false, true, false), Some("-W".to_string()));
    assert_eq!(make_core_token(false, false, true), Some("-N".to_string()));
    assert_eq!(make_core_token(true, true, true), Some("-PWN".to_string()));
}

#[test]
fn command_line_is_ordered_whatever_the_order_of_the_tokens() {
    let x = DefaultExtractor::new();
    let expected = strings(&["-PW", "-F=*.paa", "data.pbo", "D:/out"]);
    let orders: [&[&str]; 4] = [
        &["-PW", "-F=*.paa", "D:/out"],
        &["D:/out", "-F=*.paa", "-PW"],
        &["-F=*.paa", "D:/out", "-PW"],
        &["-F=*.paa", "-PW", "D:/out"],
    ];
    for order in orders {
        assert_eq!(x.command_line(&strings(order), &archive("data.pbo")), Ok(expected.clone()));
    }
}

#[test]
fn command_line_without_destination() {
    let x = DefaultExtractor::new();
    assert_eq!(
        x.command_line(&strings(&["-L", "-PW"]), &archive("dir/data.xbo")),
        Ok(strings(&["-PW", "-L", "dir/data.xbo"]))
    );
    assert_eq!(x.command_line(&strings(&[]), &archive("a.ifa")), Ok(strings(&["a.ifa"])));
}

#[test]
fn only_the_first_plain_token_is_the_destination() {
    let x = DefaultExtractor::new();
    assert_eq!(
        x.command_line(&strings(&["out1", "out2", "-PW"]), &archive("a.pbo")),
        Ok(strings(&["-PW", "a.pbo", "out1"]))
    );
}

#[test]
fn verbatim_prefix_is_taken_off_the_archive() {
    let x = DefaultExtractor::new();
    assert_eq!(
        x.command_line(&strings(&["-L"]), &archive("\\\\?\\C:\\mods\\a.pbo")),
        Ok(strings(&["-L", "C:\\mods\\a.pbo"]))
    );
}

#[test]
fn missing_archive_is_refused_first() {
    let x = DefaultExtractor::new();
    let missing = PathProbe::missing("nonexistent.txt".to_string());
    assert_eq!(
        x.command_line(&strings(&["-P!", "a|b"]), &missing),
        Err(PboError::InvalidPath("nonexistent.txt".to_string()))
    );
}

#[test]
fn archive_extension_is_checked() {
    let x = DefaultExtractor::new();
    assert_eq!(
        x.command_line(&strings(&["-L"]), &archive("notes.txt")),
        Err(PboError::InvalidFormat(
            "File notes.txt does not have a valid PBO extension".to_string()
        ))
    );
    assert!(path_has_archive_extension("a.pbo"));
    assert!(path_has_archive_extension("dir.v2/a.xbo"));
    assert!(path_has_archive_extension("C:\\x\\a.ifa"));
    assert!(!path_has_archive_extension("a.PBO"));
    assert!(!path_has_archive_extension("pbo"));
    assert!(!path_has_archive_extension(".pbo"));
    assert!(!path_has_archive_extension("a.pbo/readme"));
    assert!(!path_has_archive_extension("a.pbo.bak"));
}

#[test]
fn malformed_flag_is_refused() {
    let x = DefaultExtractor::new();
    assert_eq!(
        x.command_line(&strings(&["-PW", "-L;rm", "-x y"]), &archive("a.pbo")),
        Err(PboError::ValidationFailed("Invalid option format: -L;rm".to_string()))
    );
    assert_eq!(
        x.command_line(&strings(&["-F=any;thing goes", "-LB2"]), &archive("a.pbo")),
        Ok(strings(&["-F=any;thing goes", "-LB2", "a.pbo"]))
    );
}

#[test]
fn destination_with_shell_character_is_refused() {
    let x = DefaultExtractor::new();
    for bad in ["out|put", "out<put", "out>put", "out\"put", "out'put"] {
        assert_eq!(
            x.command_line(&strings(&["-PW", bad]), &archive("a.pbo")),
            Err(PboError::ValidationFailed(format!("Invalid destination path: {}", bad)))
        );
    }
}

#[test]
fn output_without_indicator_becomes_a_result() {
    let x = DefaultExtractor::new();
    assert_eq!(
        x.interpret_output(Some(0), "config.bin".to_string(), "no shakey on arma".to_string()),
        Ok(ExtractResult {
            return_code: 0,
            stdout: "config.bin".to_string(),
            stderr: "no shakey on arma".to_string(),
        })
    );
    assert_eq!(
        x.interpret_output(None, String::new(), String::new()),
        Ok(ExtractResult { return_code: -1, stdout: String::new(), stderr: String::new() })
    );
    assert_eq!(
        x.interpret_output(Some(3), "x".to_string(), "y".to_string()),
        Ok(ExtractResult { return_code: 3, stdout: "x".to_string(), stderr: "y".to_string() })
    );
}

#[test]
fn output_with_indicator_is_an_extraction_error_that_keeps_both_streams() {
    let x = DefaultExtractor::new();
    assert_eq!(
        x.interpret_output(Some(0), String::new(), "Bad Sha detected".to_string()),
        Err(PboError::Extraction(ExtractError::BadFormat {
            reason: "Bad Sha detected".to_string()
        }))
    );
    assert_eq!(
        x.interpret_output(Some(0), "residual bytes in file".to_string(), "warn".to_string()),
        Err(PboError::Extraction(ExtractError::BadFormat {
            reason: "residual bytes in file\nwarn".to_string()
        }))
    );
    assert_eq!(
        x.interpret_output(Some(1), " Cannot open a.pbo \n".to_string(), String::new()),
        Err(PboError::Extraction(ExtractError::BadFormat {
            reason: " Cannot open a.pbo \n".to_string()
        }))
    );
    assert_eq!(
        x.interpret_output(None, "out\n".to_string(), "Failed\n".to_string()),
        Err(PboError::Extraction(ExtractError::BadFormat {
            reason: "out\n\nFailed\n".to_string()
        }))
    );
}

#[test]
fn spawn_failures_map_to_errors() {
    let x = DefaultExtractor::new();
    assert_eq!(
        x.spawn_error(SpawnFailure::NotFound, "no such file".to_string()),
        PboError::CommandNotFound("extractpbo".to_string())
    );
    assert_eq!(
        x.spawn_error(SpawnFailure::PermissionDenied, "denied".to_string()),
        PboError::FileSystem(FileSystemError::PathValidation("Permission denied".to_string()))
    );
    assert_eq!(
        x.spawn_error(SpawnFailure::Other, "broken pipe".to_string()),
        PboError::Extraction(ExtractError::CommandFailed {
            cmd: "extractpbo".to_string(),
            reason: "broken pipe".to_string(),
        })
    );
}

#[test]
fn verbatim_prefix_is_removed_wherever_it_stands() {
    assert_eq!(clean_path("\\\\?\\C:\\out"), "C:\\out");
    assert_eq!(clean_path("C:\\out"), "C:\\out");
    assert_eq!(clean_path("a\\\\?\\b\\\\?\\"), "ab");
    assert_eq!(clean_path(""), "");
}

fn request(operation: Operation, filter: Option<&str>, destination: Option<&str>) -> InvocationRequest {
    InvocationRequest {
        operation,
        source: archive("mods/data.pbo"),
        destination: destination.map(|d| d.to_string()),
        file_filter: filter.map(|f| f.to_string()),
        no_pause: true,
        warnings_as_errors: true,
        verbose: false,
    }
}

#[test]
fn invocations_have_the_shape_the_tool_reads() {
    let x = DefaultExtractor::new();
    assert_eq!(
        x.invocation(&request(Operation::List, None, None)),
        Ok(strings(&["-PW", "-L", "mods/data.pbo"]))
    );
    assert_eq!(
        x.invocation(&request(Operation::ListBrief, None, None)),
        Ok(strings(&["-PW", "-LB", "mods/data.pbo"]))
    );
    assert_eq!(
        x.invocation(&request(Operation::Extract, None, Some("D:/output"))),
        Ok(strings(&["-PW", "mods/data.pbo", "D:/output"]))
    );
    assert_eq!(
        x.invocation(&request(Operation::Extract, Some("*.paa"), Some("D:/output"))),
        Ok(strings(&["-PW", "-F=*.paa", "mods/data.pbo", "D:/output"]))
    );
    let mut noisy = request(Operation::Extract, Some("a.txt,b.txt"), Some("out"));
    noisy.verbose = true;
    noisy.no_pause = false;
    assert_eq!(
        x.invocation(&noisy),
        Ok(strings(&["-WN", "-F=a.txt,b.txt", "mods/data.pbo", "out"]))
    );
    let mut bare = request(Operation::List, None, None);
    bare.no_pause = false;
    bare.warnings_as_errors = false;
    assert_eq!(x.invocation(&bare), Ok(strings(&["-L", "mods/data.pbo"])));
}

#[test]
fn invocation_is_refused_in_order() {
    let x = DefaultExtractor::new();
    // The options come first, whatever the paths are.
    let mut missing = request(Operation::Extract, Some("*.p\"aa"), Some("-out"));
    missing.source = PathProbe::missing("gone.pbo".to_string());
    assert_eq!(
        x.invocation(&missing),
        Err(PboError::ValidationFailed("File filter contains invalid characters".to_string()))
    );
    assert_eq!(
        x.invocation(&request(Operation::ListBrief, Some(" "), None)),
        Err(PboError::ValidationFailed(
            "Brief listing option cannot be used with extraction options".to_string()
        ))
    );
    assert_eq!(
        x.invocation(&request(Operation::Extract, Some("a|*.b"), Some("out"))),
        Err(PboError::ValidationFailed("File filter contains invalid characters".to_string()))
    );
    // Then the filter as a pattern.
    assert_eq!(
        x.invocation(&request(Operation::Extract, Some(" "), Some("-out"))),
        Err(PboError::ValidationFailed("File filter cannot be empty".to_string()))
    );
    assert_eq!(
        x.invocation(&request(Operation::Extract, Some("[[bad"), Some("-out"))),
        Err(PboError::ValidationFailed("Invalid file filter pattern: [[bad".to_string()))
    );
    // Then a destination that the tool would read as an option.
    let mut flag_like = request(Operation::Extract, None, Some("-out"));
    flag_like.source = PathProbe::missing("gone.pbo".to_string());
    assert_eq!(
        x.invocation(&flag_like),
        Err(PboError::ValidationFailed("Invalid destination path: -out".to_string()))
    );
    // Then the archive and the tokens.
    let mut gone = request(Operation::Extract, None, Some("a|b"));
    gone.source = PathProbe::missing("gone.pbo".to_string());
    assert_eq!(x.invocation(&gone), Err(PboError::InvalidPath("gone.pbo".to_string())));
    let mut wrong = request(Operation::List, None, None);
    wrong.source = archive("data.zip");
    assert_eq!(
        x.invocation(&wrong),
        Err(PboError::InvalidFormat("File data.zip does not have a valid PBO extension".to_string()))
    );
    assert_eq!(
        x.invocation(&request(Operation::Extract, None, Some("a|b"))),
        Err(PboError::ValidationFailed("Invalid destination path: a|b".to_string()))
    );
}

#[test]
fn destination_that_looks_like_a_flag_is_refused() {
    let x = DefaultExtractor::new();
    for dest in ["-out", "-", "-F=x", "--dir", "-PW"] {
        assert_eq!(
            x.invocation(&request(Operation::Extract, None, Some(dest))),
            Err(PboError::ValidationFailed(format!("Invalid destination path: {}", dest)))
        );
        assert_eq!(
            x.extract_with_options(&archive("a.pbo"), dest, &ExtractOptions::for_extraction()),
            Err(PboError::ValidationFailed(format!("Invalid destination path: {}", dest)))
        );
    }
    assert_eq!(
        x.invocation(&request(Operation::Extract, None, Some("out-put"))),
        Ok(strings(&["-PW", "mods/data.pbo", "out-put"]))
    );
    assert_eq!(
        x.invocation(&request(Operation::Extract, None, Some(""))),
        Ok(strings(&["-PW", "mods/data.pbo", ""]))
    );
}

#[test]
fn quote_or_pipe_in_the_filter_is_refused_whatever_the_paths_are() {
    let x = DefaultExtractor::new();
    let gone = PathProbe::missing("gone.txt".to_string());
    for filter in ["a\"b", "a|b", "\"", "|", "*.cpp|*.hpp"] {
        let options = ExtractOptions::for_filtered_extraction(Some(filter.to_string()));
        for pbo in [&gone, &archive("a.pbo")] {
            for dir in ["out", "-out", "out|put", "/no/such/dir"] {
                assert!(matches!(
                    x.extract_with_options(pbo, dir, &options),
                    Err(PboError::ValidationFailed(_))
                ));
            }
            assert!(matches!(
                x.list_with_options(pbo, &options),
                Err(PboError::ValidationFailed(_))
            ));
        }
    }
}

#[test]
fn command_lines_of_the_two_operations() {
    let x = DefaultExtractor::new();
    let filtered = ExtractOptions::for_filtered_extraction(Some("*.paa".to_string()));
    assert_eq!(
        x.extract_with_options(&archive("a.pbo"), "D:/out", &filtered),
        Ok(strings(&["-PW", "-F=*.paa", "a.pbo", "D:/out"]))
    );
    assert_eq!(
        x.list_with_options(&archive("a.pbo"), &ExtractOptions::for_listing()),
        Ok(strings(&["-PW", "-L", "a.pbo"]))
    );
    assert_eq!(
        x.list_with_options(&archive("a.pbo"), &ExtractOptions::for_brief_listing()),
        Ok(strings(&["-PW", "-LB", "a.pbo"]))
    );
    // A filter plays no part in a detailed listing.
    assert_eq!(
        x.list_with_options(&archive("a.pbo"), &filtered),
        Ok(strings(&["-PW", "-L", "a.pbo"]))
    );
    // An extraction cannot be brief and filtered at once.
    let brief = ExtractOptions { brief_listing: true, ..filtered.clone() };
    assert_eq!(
        x.extract_with_options(&archive("a.pbo"), "out", &brief),
        Err(PboError::ValidationFailed(
            "Brief listing option cannot be used with extraction options".to_string()
        ))
    );
    assert_eq!(
        x.extract_with_options(
            &PathProbe::missing("gone.pbo".to_string()),
            "out",
            &ExtractOptions::for_extraction()
        ),
        Err(PboError::InvalidPath("gone.pbo".to_string()))
    );
}

#[test]
fn requests_from_options() {
    let options = ExtractOptions::for_filtered_extraction(Some("*.paa".to_string()));
    let r = InvocationRequest::extraction(archive("a.pbo"), "out".to_string(), &options);
    assert_eq!(r.operation, Operation::Extract);
    assert_eq!(r.destination, Some("out".to_string()));
    assert_eq!(r.file_filter, Some("*.paa".to_string()));
    assert!(r.no_pause && r.warnings_as_errors && !r.verbose);
    assert_eq!(r.options(), options);
    let l = InvocationRequest::listing(archive("a.pbo"), &ExtractOptions::for_brief_listing());
    assert_eq!(l.operation, Operation::ListBrief);
    assert_eq!(l.destination, None);
    assert_eq!(l.options(), ExtractOptions::for_brief_listing());
    let d = InvocationRequest::listing(archive("a.pbo"), &ExtractOptions::for_listing());
    assert_eq!(d.operation, Operation::List);
}
