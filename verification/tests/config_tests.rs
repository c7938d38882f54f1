use pbo_tools::config::{PboConfig, PboConfigBuilder};

#[test]
fn test_default_config() {
    let config = PboConfig::default();
    assert!(!config.is_case_sensitive());
    assert!(!config.should_ignore_path_validation());
    assert_eq!(config.max_retries(), 3);
    assert_eq!(config.get_bin_extension("config.bin"), Some("config.cpp"));
    assert_eq!(config.get_bin_extension("unknown.bin"), None);
}

#[test]
fn config_test_default_config() {
    let config = PboConfig::default();
    assert!(config.get_bin_extension("config.bin").is_some());
    assert_eq!(config.get_bin_extension("config.bin"), Some("config.cpp"));
    assert_eq!(config.get_bin_extension("unknown.bin"), None);
}

#[test]
fn test_case_sensitivity() {
    let config = PboConfig::builder()
        .case_sensitive(true)
        .add_bin_mapping("Test.bin", "test.txt")
        .build();

    assert!(config.is_case_sensitive());
    assert_eq!(config.get_bin_extension("Test.bin"), Some("test.txt"));
    assert_eq!(config.get_bin_extension("test.bin"), None);

    let config = PboConfig::builder()
        .case_sensitive(false)
        .add_bin_mapping("Test.bin", "test.txt")
        .build();

    assert!(!config.is_case_sensitive());
    assert_eq!(config.get_bin_extension("Test.bin"), Some("test.txt"));
    assert_eq!(config.get_bin_extension("test.bin"), Some("test.txt"));
}

#[test]
fn test_custom_config() {
    let config = PboConfig::builder()
        .add_bin_mapping("custom.bin", "custom.txt")
        .add_bad_indicator("Custom bad indicator")
        .max_retries(5)
        .build();

    assert_eq!(config.get_bin_extension("custom.bin"), Some("custom.txt"));
    assert!(config.is_bad_pbo("Custom bad indicator"));
    assert!(!config.is_bad_pbo("Unrelated message"));
    assert_eq!(config.max_retries(), 5);
}

#[test]
fn config_test_custom_config() {
    let config = PboConfig::builder()
        .add_bin_mapping("custom.bin", "custom.txt")
        .add_bad_indicator("Custom bad indicator")
        .build();

    assert_eq!(config.get_bin_extension("custom.bin"), Some("custom.txt"));
    assert!(config.is_bad_pbo("Custom bad indicator"));
    assert!(!config.is_bad_pbo("Unrelated message"));
}

#[test]
fn test_path_validation() {
    let config = PboConfig::builder()
        .ignore_path_validation(true)
        .build();

    assert!(config.should_ignore_path_validation());
}

#[test]
fn test_default_bad_indicators() {
    let config = PboConfig::default();
    assert!(config.is_bad_pbo("DePbo:Pbo unknown header type"));
    assert!(config.is_bad_pbo("Bad Sha detected"));
    assert!(!config.is_bad_pbo("Normal message"));
}

#[test]
fn config_test_default_bad_indicators() {
    let config = PboConfig::default();
    assert!(config.is_bad_pbo("prefix DePbo:Pbo unknown header type suffix"));
    assert!(config.is_bad_pbo("Bad Sha"));
    assert!(config.is_bad_pbo("this warning is set as an error"));
    assert!(!config.is_bad_pbo(""));
}

#[test]
fn test_default_bin_mappings() {
    let config = PboConfig::default();
    let expected_mappings = [
        ("config.bin", "config.cpp"),
        ("model.bin", "model.cfg"),
        ("stringtable.bin", "stringtable.xml"),
        ("texheaders.bin", "texheaders.txt"),
        ("script.bin", "script.cpp"),
    ];

    for (bin, expected) in expected_mappings {
        assert_eq!(config.get_bin_extension(bin), Some(expected));
    }
}

#[test]
fn config_test_default_bin_mappings() {
    let config = PboConfig::default();
    assert_eq!(config.get_mapping("default"), Some(".txt"));
    assert_eq!(config.get_mapping("config.bin"), Some("config.cpp"));
    assert_eq!(config.get_mapping("Config.bin"), None);
    assert_eq!(config.get_bin_extension("Config.BIN"), Some("config.cpp"));
}

#[test]
fn test_builder_chaining() {
    let config = PboConfig::builder()
        .add_bin_mapping("test1.bin", "test1.txt")
        .add_bin_mapping("test2.bin", "test2.txt")
        .add_bad_indicator("indicator1")
        .add_bad_indicator("indicator2")
        .case_sensitive(true)
        .max_retries(10)
        .build();

    assert_eq!(config.get_bin_extension("test1.bin"), Some("test1.txt"));
    assert_eq!(config.get_bin_extension("test2.bin"), Some("test2.txt"));
    assert!(config.is_bad_pbo("indicator1"));
    assert!(config.is_bad_pbo("indicator2"));
    assert!(config.is_case_sensitive());
    assert_eq!(config.max_retries(), 10);
}

#[test]
fn config_test_builder_chaining() {
    let config = PboConfig::builder()
        .add_bin_mapping("test1.bin", "test1.txt")
        .add_bin_mapping("test2.bin", "test2.txt")
        .add_bad_indicator("indicator1")
        .add_bad_indicator("indicator2")
        .build();

    assert_eq!(config.get_bin_extension("test1.bin"), Some("test1.txt"));
    assert_eq!(config.get_bin_extension("test2.bin"), Some("test2.txt"));
    assert!(config.is_bad_pbo("indicator1"));
    assert!(config.is_bad_pbo("indicator2"));
}

#[test]
fn later_mapping_replaces_earlier_one() {
    let config = PboConfigBuilder::new()
        .add_bin_mapping("config.bin", "first")
        .add_bin_mapping("CONFIG.bin", "second")
        .build();
    assert_eq!(config.get_bin_extension("config.bin"), Some("second"));
    assert_eq!(config.get_bin_extension("model.bin"), Some("model.cfg"));
}

#[test]
fn lowercase_lookup_goes_through_unicode() {
    let config = PboConfig::builder().add_bin_mapping("ÄRGER.bin", "x").build();
    assert_eq!(config.get_bin_extension("ärger.BIN"), Some("x"));
    assert_eq!(config.get_mapping("ärger.bin"), Some("x"));
}
