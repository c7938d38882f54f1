use pbo_tools::config::PboConfig;
use pbo_tools::error::{FileSystemError, PboError};
use pbo_tools::mapper::{
    after_rename, check_move_source, detect_bin_type, new_name_of, plan_rename, plan_renames,
    renamed_with_key, Rename,
};
use pbo_tools::paths::PathProbe;

fn rename(from: &str, to: &str) -> Rename {
    Rename { from: from.to_string(), to: to.to_string() }
}

#[test]
fn default_mapping_renames_config_and_falls_back_for_others() {
    let config = PboConfig::default();
    assert_eq!(new_name_of(&config, "config.bin"), Some("config.cpp".to_string()));
    assert_eq!(new_name_of(&config, "foo.bin"), Some("foo.txt".to_string()));
}

#[test]
fn default_table_in_full() {
    let config = PboConfig::default();
    assert_eq!(new_name_of(&config, "model.bin"), Some("model.cfg".to_string()));
    assert_eq!(new_name_of(&config, "stringtable.bin"), Some("stringtable.xml".to_string()));
    assert_eq!(new_name_of(&config, "texheaders.bin"), Some("texheaders.txt".to_string()));
    assert_eq!(new_name_of(&config, "script.bin"), Some("script.cpp".to_string()));
}

#[test]
fn files_that_are_no_binary_payload_are_kept() {
    let config = PboConfig::default();
    assert_eq!(new_name_of(&config, "mirror.p3d"), None);
    assert_eq!(new_name_of(&config, "readme.txt"), None);
    assert_eq!(new_name_of(&config, "bin"), None);
    assert_eq!(new_name_of(&config, ".bin"), None);
    assert_eq!(new_name_of(&config, "default"), None);
    assert_eq!(new_name_of(&config, ""), None);
}

#[test]
fn other_binary_extensions_have_no_fallback() {
    let config = PboConfig::default();
    assert_eq!(new_name_of(&config, "data.binpbo"), None);
    assert_eq!(new_name_of(&config, "data.binconfig"), None);
    let custom = PboConfig::builder().add_bin_mapping("data.binpbo", "pbo").build();
    assert_eq!(new_name_of(&custom, "data.binpbo"), Some("data.pbo".to_string()));
}

#[test]
fn stem_keeps_its_case() {
    let config = PboConfig::default();
    assert_eq!(new_name_of(&config, "Config.BIN"), Some("Config.cpp".to_string()));
    assert_eq!(new_name_of(&config, "MyData.Bin"), Some("MyData.txt".to_string()));
    let strict = PboConfig::builder().case_sensitive(true).build();
    assert_eq!(new_name_of(&strict, "Config.BIN"), None);
    assert_eq!(new_name_of(&strict, "Config.bin"), Some("Config.txt".to_string()));
    assert_eq!(new_name_of(&strict, "config.bin"), Some("config.cpp".to_string()));
}

#[test]
fn test_binary_file_batch_processing() {
    let config = PboConfig::builder()
        .add_bin_mapping("config.bin", "cpp")
        .add_bin_mapping("script.bin", "cpp")
        .add_bin_mapping("model.bin", "cfg")
        .build();
    let files = vec![
        "bin/config.bin".to_string(),
        "bin/script.bin".to_string(),
        "bin/model.bin".to_string(),
    ];
    assert_eq!(
        plan_renames(&config, &files),
        vec![
            rename("bin/config.bin", "bin/config.cpp"),
            rename("bin/script.bin", "bin/script.cpp"),
            rename("bin/model.bin", "bin/model.cfg"),
        ]
    );
}

#[test]
fn test_binary_conversion_with_custom_mappings() {
    let config = PboConfig::builder().add_bin_mapping("custom.bin", "txt").build();
    assert_eq!(
        plan_rename(&config, "/tmp/x/custom.bin"),
        Some(rename("/tmp/x/custom.bin", "/tmp/x/custom.txt"))
    );
}

#[test]
fn rename_stays_in_its_directory() {
    let config = PboConfig::default();
    assert_eq!(
        plan_rename(&config, "out/tc/mirrorform/config.bin"),
        Some(rename("out/tc/mirrorform/config.bin", "out/tc/mirrorform/config.cpp"))
    );
    assert_eq!(
        plan_rename(&config, "C:\\out\\a.b\\foo.bin"),
        Some(rename("C:\\out\\a.b\\foo.bin", "C:\\out\\a.b\\foo.txt"))
    );
    assert_eq!(plan_rename(&config, "out/config.bin/"), None);
    assert_eq!(detect_bin_type(&config, "a/b/config.bin"), Some("config.cpp".to_string()));
    assert_eq!(detect_bin_type(&config, "a/b/mirror.p3d"), None);
}

#[test]
fn plan_keeps_the_order_and_skips_other_files() {
    let config = PboConfig::default();
    let files = vec![
        "o/uniform/mirror.p3d".to_string(),
        "o/z.bin".to_string(),
        "o/config.bin".to_string(),
        "o/readme.txt".to_string(),
        "o/a.bin".to_string(),
    ];
    assert_eq!(
        plan_renames(&config, &files),
        vec![
            rename("o/z.bin", "o/z.txt"),
            rename("o/config.bin", "o/config.cpp"),
            rename("o/a.bin", "o/a.txt"),
        ]
    );
    assert_eq!(plan_renames(&config, &Vec::new()), Vec::new());
}

#[test]
fn first_failed_rename_ends_the_walk() {
    let plan = vec![rename("a.bin", "a.txt"), rename("b.bin", "b.txt")];
    assert_eq!(after_rename(&plan, 0, None), Ok(Some(1)));
    assert_eq!(after_rename(&plan, 1, None), Ok(None));
    assert_eq!(
        after_rename(&plan, 0, Some("access denied".to_string())),
        Err(PboError::FileSystem(FileSystemError::Rename {
            from: "a.bin".to_string(),
            to: "a.txt".to_string(),
            reason: "access denied".to_string(),
        }))
    );
}

#[test]
fn missing_source_cannot_be_moved() {
    assert_eq!(check_move_source(&PathProbe::file("a.bin".to_string(), 1)), Ok(()));
    assert_eq!(
        check_move_source(&PathProbe::missing("a.bin".to_string())),
        Err(PboError::FileSystem(FileSystemError::Read {
            path: "a.bin".to_string(),
            reason: "Source file does not exist".to_string(),
        }))
    );
}

#[test]
fn key_decides_the_lookup() {
    let config = PboConfig::default();
    assert_eq!(renamed_with_key(&config, "Config.BIN", "config.bin"), Some("Config.cpp".to_string()));
    assert_eq!(renamed_with_key(&config, "Config.BIN", "Config.BIN"), None);
    assert_eq!(renamed_with_key(&config, "x.bin", "x.bin"), Some("x.txt".to_string()));
}
