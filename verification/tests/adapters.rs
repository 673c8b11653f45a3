//! Migration files and what is known of them.

use diesel_guard::adapters::diesel::{
    sort_entries, DieselAdapter, MetadataFile, MigrationDir, MigrationEntry, MigrationListing,
    NO_TRANSACTION_HINT,
};
use diesel_guard::adapters::{
    normalize_timestamp, should_check_migration, MigrationAdapter, MigrationContext,
};

#[test]
fn test_parse_timestamp_with_underscores() {
    let adapter = DieselAdapter;
    assert_eq!(
        adapter.parse_timestamp("2024_01_01_000000_create_users"),
        Some("20240101000000".to_string())
    );
}

#[test]
fn test_parse_timestamp_with_dashes() {
    let adapter = DieselAdapter;
    assert_eq!(
        adapter.parse_timestamp("2024-01-01-000000_create_users"),
        Some("20240101000000".to_string())
    );
}

#[test]
fn test_parse_timestamp_no_separators() {
    let adapter = DieselAdapter;
    assert_eq!(
        adapter.parse_timestamp("20240101000000_create_users"),
        Some("20240101000000".to_string())
    );
}

#[test]
fn test_parse_timestamp_invalid() {
    let adapter = DieselAdapter;
    assert_eq!(adapter.parse_timestamp("invalid_name"), None);
    assert_eq!(adapter.parse_timestamp("2024_01_01"), None);
}

#[test]
fn test_validate_timestamp() {
    let adapter = DieselAdapter;
    assert!(adapter.validate_timestamp("2024_01_01_000000").is_ok());
    assert!(adapter.validate_timestamp("2024-01-01-000000").is_ok());
    assert!(adapter.validate_timestamp("20240101000000").is_ok());
    assert!(adapter.validate_timestamp("invalid").is_err());
}

#[test]
fn test_validate_timestamp_with_trailing_chars() {
    // The regex matches a prefix but the full string has trailing characters,
    // so the whole-string check (captures[0] == timestamp) fails → Err.
    let adapter = DieselAdapter;
    assert!(adapter.validate_timestamp("20240101000000_extra").is_err());
    assert!(
        adapter
            .validate_timestamp("2024_01_01_000000_extra")
            .is_err()
    );
}

#[test]
fn test_should_check_migration() {
    // No filter - check all
    assert!(should_check_migration(None, "20240101000000"));
    assert!(should_check_migration(None, "20200101000000"));

    // With filter - check only after
    assert!(should_check_migration(
        Some("20240101000000"),
        "20240102000000"
    ));
    assert!(!should_check_migration(
        Some("20240101000000"),
        "20240101000000"
    ));
    assert!(!should_check_migration(
        Some("20240101000000"),
        "20231231235959"
    ));
}

#[test]
fn test_should_check_migration_mixed_formats() {
    // start_after with underscores vs migration without
    assert!(should_check_migration(
        Some("2024_01_01_000000"),
        "20240102000000"
    ));
    assert!(!should_check_migration(
        Some("2024_01_01_000000"),
        "20240101000000"
    ));

    // start_after without separators vs migration with dashes
    assert!(should_check_migration(
        Some("20240101000000"),
        "2024-01-02-000000"
    ));
    assert!(!should_check_migration(
        Some("20240101000000"),
        "2024-01-01-000000"
    ));
}

#[test]
fn test_should_check_migration_non_timestamp_directory_name() {
    // Diesel allows migration directories without a recognized timestamp — the raw
    // directory name is used as the fallback (see diesel.rs `unwrap_or_else`).
    // When start_after is a real numeric timestamp and the migration name is a plain
    // word, both fail i64::parse and string comparison is used. Non-numeric strings
    // (e.g. "create_users" → "createusers") sort after numeric strings, so the
    // migration is always checked regardless of start_after.
    assert!(should_check_migration(
        Some("20240101000000"),
        "create_users"
    ));
}

#[test]
fn test_with_disabled_checks_deduplicates_names() {
    let ctx = MigrationContext {
        disabled_checks: vec![
            "AddColumnCheck".to_string(),
            "IdempotencyAlterCheck".to_string(),
        ],
        ..MigrationContext::default()
    };

    let ctx = ctx
        .with_disabled_checks(&["AddColumnCheck".to_string(), "DropColumnCheck".to_string()]);

    assert_eq!(
        ctx.disabled_checks,
        vec![
            "AddColumnCheck".to_string(),
            "IdempotencyAlterCheck".to_string(),
            "DropColumnCheck".to_string(),
        ]
    );
}

#[test]
fn test_extract_metadata_no_parent_defaults_to_in_transaction() {
    let adapter = DieselAdapter;
    let meta = adapter.extract_migration_metadata(None);
    assert!(meta.run_in_transaction);
    assert_eq!(meta.no_transaction_hint, NO_TRANSACTION_HINT);
    assert!(meta.disabled_checks.is_empty());
}

#[test]
fn test_extract_metadata_run_in_transaction_false() {
    let adapter = DieselAdapter;
    let meta = adapter.extract_migration_metadata(Some(MetadataFile {
        run_in_transaction: Some(false),
        disable_checks: vec![],
    }));
    assert!(!meta.run_in_transaction);
}

#[test]
fn test_extract_metadata_run_in_transaction_true_explicit() {
    let adapter = DieselAdapter;
    let meta = adapter.extract_migration_metadata(Some(MetadataFile {
        run_in_transaction: Some(true),
        disable_checks: vec!["DropTableCheck".to_string()],
    }));
    assert!(meta.run_in_transaction);
    assert_eq!(meta.disabled_checks, vec!["DropTableCheck"]);
    assert!(meta.disables_check("DropTableCheck"));
    assert!(!meta.disables_check("DropColumnCheck"));
}

#[test]
fn test_extract_metadata_empty_toml_defaults_to_in_transaction() {
    let adapter = DieselAdapter;
    let meta = adapter.extract_migration_metadata(Some(MetadataFile::default()));
    assert!(meta.run_in_transaction);
}

fn migration(name: &str) -> MigrationDir {
    MigrationDir {
        name: Some(name.to_string()),
        up_sql: Some(format!("migrations/{name}/up.sql")),
        down_sql: Some(format!("migrations/{name}/down.sql")),
    }
}

#[test]
fn test_single_migration_dir_skips_down_sql() {
    let listing = MigrationListing::Single(migration("2024_01_01_000000_test"));
    let files = DieselAdapter.collect_migration_files(&listing, None, false);

    assert_eq!(files.len(), 1);
    assert!(files[0].path.as_str().contains("up.sql"));
    assert_eq!(files[0].timestamp, "20240101000000");
}

#[test]
fn test_single_migration_dir_includes_down_sql() {
    let listing = MigrationListing::Single(migration("2024_01_01_000000_test"));
    let files = DieselAdapter.collect_migration_files(&listing, None, true);

    assert_eq!(files.len(), 2);
    let paths: Vec<String> = files.iter().map(|f| f.path.to_string()).collect();
    assert!(paths.iter().any(|p| p.contains("up.sql")));
    assert!(paths.iter().any(|p| p.contains("down.sql")));
}

#[test]
fn single_migration_is_checked_whatever_its_timestamp() {
    let listing = MigrationListing::Single(migration("2024_01_01_000000_test"));
    let files = DieselAdapter.collect_migration_files(&listing, Some("2030_01_01_000000"), false);
    assert_eq!(files.len(), 1);
}

#[test]
fn migrations_up_to_the_start_are_left_out() {
    let listing = MigrationListing::Entries(vec![
        MigrationEntry::Directory(migration("2024_01_01_000000_first")),
        MigrationEntry::Directory(migration("2024_01_02_000000_second")),
        MigrationEntry::Directory(migration("2024-01-03-000000_third")),
        MigrationEntry::Directory(MigrationDir::default()),
    ]);
    let files = DieselAdapter.collect_migration_files(&listing, Some("20240101000000"), false);
    let paths: Vec<&str> = files.iter().map(|f| f.path.as_str()).collect();
    assert_eq!(
        paths,
        vec![
            "migrations/2024_01_02_000000_second/up.sql",
            "migrations/2024-01-03-000000_third/up.sql",
        ]
    );
}

#[test]
fn only_sql_files_are_migrations() {
    let file = |name: &str, extension: Option<&str>| MigrationEntry::File {
        path: format!("migrations/{name}"),
        name: name.to_string(),
        extension: extension.map(|e| e.to_string()),
    };
    let listing = MigrationListing::Entries(vec![
        file("20240101000000_old.sql", Some("sql")),
        file("20240201000000_new.sql", Some("sql")),
        file("notes.txt", Some("txt")),
        file("LICENSE", None),
        file("seed.sql", Some("sql")),
    ]);
    let files = DieselAdapter.collect_migration_files(&listing, Some("20240115000000"), true);
    let paths: Vec<&str> = files.iter().map(|f| f.path.as_str()).collect();
    assert_eq!(paths, vec!["migrations/20240201000000_new.sql", "migrations/seed.sql"]);
    assert_eq!(files[0].timestamp, "20240201000000");
    assert_eq!(files[1].timestamp, "seed.sql");
}

#[test]
fn entries_are_sorted_by_name() {
    let entries = sort_entries(vec![
        MigrationEntry::Directory(migration("2024_02")),
        MigrationEntry::File {
            path: "migrations/2024_01.sql".to_string(),
            name: "2024_01.sql".to_string(),
            extension: Some("sql".to_string()),
        },
        MigrationEntry::Directory(migration("2023")),
    ]);
    let files = DieselAdapter.collect_migration_files(&MigrationListing::Entries(entries), None, false);
    let paths: Vec<&str> = files.iter().map(|f| f.path.as_str()).collect();
    assert_eq!(
        paths,
        vec!["migrations/2023/up.sql", "migrations/2024_01.sql", "migrations/2024_02/up.sql"]
    );
}

#[test]
fn invalid_timestamp_is_named_in_the_error() {
    assert_eq!(
        DieselAdapter.validate_timestamp("invalid").unwrap_err(),
        "Invalid Diesel timestamp format: invalid. Expected: YYYYMMDDHHMMSS, YYYY_MM_DD_HHMMSS, or YYYY-MM-DD-HHMMSS"
    );
}

#[test]
fn separators_do_not_count_in_timestamps() {
    assert_eq!(normalize_timestamp("2024_01-02_030405"), "20240102030405");
    assert!(!should_check_migration(Some("2024_01_01_000000"), "2024-01-01-000000"));
}

#[test]
fn timestamps_are_compared_as_numbers() {
    assert!(should_check_migration(Some("9"), "10"));
    assert!(!should_check_migration(Some("10"), "9"));
    // What is no number is compared as text.
    assert!(!should_check_migration(Some("b"), "a"));
    assert!(should_check_migration(Some("a"), "b"));
}

#[test]
fn process_migration_directory_selects_its_files() {
    let files = DieselAdapter.process_migration_directory(
        &migration("2024_01_02_000000_second"),
        Some("2024_01_01_000000"),
        true,
    );
    assert_eq!(files.len(), 2);
    let none = DieselAdapter.process_migration_directory(
        &migration("2024_01_02_000000_second"),
        Some("2024_01_02_000000"),
        true,
    );
    assert!(none.is_empty());
}

#[test]
fn valid_timestamps_are_parsed_without_separators() {
    for text in ["2024_01_02_030405", "2024-01-02-030405", "20240102030405"] {
        assert!(DieselAdapter.validate_timestamp(text).is_ok());
        assert_eq!(DieselAdapter.parse_timestamp(text).as_deref(), Some("20240102030405"));
    }
    assert!(DieselAdapter.validate_timestamp("20240102030405_x").is_err());
    assert_eq!(
        DieselAdapter.parse_timestamp("20240102030405_x").as_deref(),
        Some("20240102030405")
    );
}

#[test]
fn start_after_leaves_files_out_and_keeps_their_order() {
    let dir = |name: &str| {
        MigrationEntry::Directory(MigrationDir {
            name: Some(name.to_string()),
            up_sql: Some(format!("m/{name}/up.sql")),
            down_sql: Some(format!("m/{name}/down.sql")),
        })
    };
    let file = |name: &str| MigrationEntry::File {
        path: format!("m/{name}"),
        name: name.to_string(),
        extension: Some("sql".to_string()),
    };
    let listing = MigrationListing::Entries(vec![
        dir("20230101000000_a"),
        file("20230201000000_b.sql"),
        dir("20240101000000_c"),
        file("20240201000000_d.sql"),
        file("seed.sql"),
    ]);
    let paths = |start: Option<&str>| -> Vec<String> {
        let files = DieselAdapter.collect_migration_files(&listing, start, true);
        files.into_iter().map(|file| file.path).collect()
    };
    let all = paths(None);
    assert_eq!(all.len(), 7);
    assert_eq!(paths(Some("20231231000000")), all[3..]);
}
