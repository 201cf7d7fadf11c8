use lmdb_helper::{normalize_dir, AccessMode, Config};

#[test]
fn backslashes_become_slashes_and_trailing_slashes_go() {
    assert_eq!(normalize_dir("."), ".");
    assert_eq!(normalize_dir("data/db"), "data/db");
    assert_eq!(normalize_dir("data/db/"), "data/db");
    assert_eq!(normalize_dir("data/db///"), "data/db");
    assert_eq!(normalize_dir("C:\\data\\db"), "C:/data/db");
    assert_eq!(normalize_dir("C:\\data\\db\\"), "C:/data/db");
    assert_eq!(normalize_dir("a\\/\\/"), "a");
    assert_eq!(normalize_dir("a//b"), "a//b");
    assert_eq!(normalize_dir("/"), "");
    assert_eq!(normalize_dir("\\"), "");
    assert_eq!(normalize_dir(""), "");
    assert_eq!(normalize_dir("dépôt\\données/"), "dépôt/données");
}

#[test]
fn the_directory_defaults_to_the_current_one() {
    let config = Config::from_arguments(None, None, false, None, false, None, None);
    assert_eq!(config.database_dir, ".");
    assert_eq!(config.database, None);
    assert_eq!(config.out_file, None);
}

#[test]
fn listing_is_implied_unless_extracting_or_inserting() {
    let list = |list, extract, extract_all, insert| {
        Config::from_arguments(Some("d"), None, list, extract, extract_all, insert, None).list
    };
    assert!(list(false, None, false, None));
    assert!(list(false, None, true, None));
    assert!(list(true, None, false, None));
    assert!(!list(false, Some("k"), false, None));
    assert!(!list(false, None, false, Some("f")));
    assert!(!list(false, Some("k"), true, Some("f")));
    assert!(list(true, Some("k"), false, None));
    assert!(list(true, None, false, Some("f")));
}

#[test]
fn arguments_are_kept_as_given() {
    let config = Config::from_arguments(
        Some("dir\\sub/"),
        Some("names"),
        true,
        Some("key\\with/"),
        true,
        Some("path\\to/file/"),
        Some("out\\"),
    );
    assert_eq!(
        config,
        Config {
            database_dir: "dir/sub".to_string(),
            database: Some("names".to_string()),
            list: true,
            extract: Some("key\\with/".to_string()),
            extract_all: true,
            insert: Some("path\\to/file/".to_string()),
            out_file: Some("out\\".to_string()),
        }
    );
}

#[test]
fn the_store_is_opened_for_writing_only_to_insert() {
    let reading = Config::from_arguments(None, None, true, Some("k"), true, None, Some("o"));
    assert_eq!(reading.mode(), AccessMode::ReadOnly);
    let writing = Config::from_arguments(None, None, false, None, false, Some("f"), None);
    assert_eq!(writing.mode(), AccessMode::ReadWrite);
}
