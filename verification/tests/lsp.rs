//! The language server.

use diesel_guard::adapters::MigrationContext;
use diesel_guard::ast::{
    AConst, AlterTableCmd, AlterTableStmt, AlterTableType, ColumnDef, ConstrType, Constraint,
    NodeEnum, RangeVar, RawStmt, TypeName,
};
use diesel_guard::config::{Config, ConfigError};
use diesel_guard::error::{DieselGuardError, SourceSpan};
use diesel_guard::lsp::config_cache::{
    checker_cache_key_with_lsp_fallback, custom_check_signature_hash,
    enforce_lsp_custom_check_hash_budget, is_custom_check_file, limited_bytes_to_string,
    load_lsp_config, CheckerCacheKey, CheckerInputs, LimitedFileRead, SignatureCollector,
    used_checks_dir, MAX_LIVE_DOCUMENT_BYTES, MAX_LSP_CUSTOM_CHECK_FILES, MAX_LSP_CUSTOM_CHECK_TOTAL_SOURCE_BYTES,
    MAX_SAVED_DOCUMENT_BYTES,
};
use diesel_guard::lsp::diagnostics::{
    byte_offset_to_position, violations_to_diagnostics, ContentChange, DiagnosticSeverity,
    Position, DIAGNOSTIC_SOURCE,
};
use diesel_guard::lsp::output::{HandlerOutput, MessageType};
use diesel_guard::lsp::state::documents::{Action, CheckKind, PendingCheck};
use diesel_guard::lsp::state::transport::{
    deserialize_error_output, document_notification_kind, initialize_result, notification_kind,
    protocol_error, unsupported_request_response, DocumentNotificationKind, LoopControl,
    NotificationKind,
};
use diesel_guard::lsp::state::{
    ServerState, MAX_PUBLISHED_DIAGNOSTIC_URIS, MAX_TRACKED_DOCUMENTS,
};
use diesel_guard::lsp::uri::{
    file_uri_to_path, is_sql_file_uri, percent_decode_utf8, percent_encoded_byte,
    select_workspace_root, UriInfo,
};
use diesel_guard::parser::Statements;
use diesel_guard::safety_checker::{CustomChecks, ScriptError};
use diesel_guard::violation::{Severity, Violation};
use std::collections::hash_map::DefaultHasher;
use std::hash::{Hash, Hasher};
use lsp_types::notification::Notification;

const UNSAFE_SQL: &str = "ALTER TABLE users ADD COLUMN admin BOOLEAN DEFAULT FALSE;";
const BAD_SQL: &str = "CREATE TABLE @bad;";

/// What the parser finds in the texts below.
fn parse(sql: &str) -> Result<Statements, DieselGuardError> {
    if sql.contains('@') {
        return Err(DieselGuardError::ParseError {
            msg: "Invalid statement: syntax error at or near \"@\"".to_string(),
            src: None,
            span: Some(SourceSpan { offset: sql.find('@').unwrap(), length: 0 }),
        });
    }
    let start = sql.find(|c: char| c.is_ascii_uppercase()).unwrap_or(0);
    let stmt = if sql.contains(UNSAFE_SQL) {
        let default = Constraint {
            contype: ConstrType::ConstrDefault,
            raw_expr: Some(Box::new(NodeEnum::AConst(AConst::Boolean(false)))),
            ..Constraint::default()
        };
        let column = ColumnDef {
            colname: "admin".to_string(),
            typename: Some(TypeName {
                names: vec![NodeEnum::String("bool".to_string())],
                typmods: vec![],
            }),
            constraints: vec![NodeEnum::Constraint(default)],
        };
        NodeEnum::AlterTableStmt(AlterTableStmt {
            relation: Some(RangeVar {
                relname: "users".to_string(),
                ..RangeVar::default()
            }),
            cmds: vec![NodeEnum::AlterTableCmd(AlterTableCmd {
                subtype: AlterTableType::AtAddColumn,
                def: Some(Box::new(NodeEnum::ColumnDef(column))),
                ..AlterTableCmd::default()
            })],
        })
    } else {
        NodeEnum::Other
    };
    Ok(Statements {
        stmts: vec![RawStmt { stmt: Some(stmt), stmt_location: start as i32 }],
        token_starts: vec![start],
    })
}

fn no_custom_checks() -> CustomChecks {
    CustomChecks { names: vec![], checks: vec![], errors: vec![] }
}

fn inputs(config: Config) -> CheckerInputs {
    checker_cache_key_with_lsp_fallback(config, Ok(vec![])).unwrap()
}

/// Loads a checker as the server does: from the cache if it can.
fn load(state: &mut ServerState, config: Config) -> Result<Vec<String>, ConfigError> {
    let inputs = inputs(config);
    if state.cached_checker(&inputs.key) {
        return Ok(vec![]);
    }
    state.build_cached_checker(inputs, no_custom_checks())
}

fn add_column_only() -> Config {
    Config { enable_checks: vec!["AddColumnCheck".to_string()], ..Config::default() }
}

fn check(state: &mut ServerState, pending: PendingCheck) -> HandlerOutput {
    let loaded = load(state, add_column_only());
    let statements = parse(&pending.text);
    state.finish_check(pending, loaded, statements, &MigrationContext::default())
}

/// Carries an action out, on a disk on which no file can be read.
fn carry_out(state: &mut ServerState, action: Action) -> HandlerOutput {
    match action {
        Action::Finish(output) => output,
        Action::Check(pending) => check(state, pending),
        Action::ReadFile(save) => {
            let next = state.saved_file_read(save, Err("No such file or directory".to_string()));
            carry_out(state, next)
        }
    }
}

fn save_with_file(state: &mut ServerState, uri: &UriInfo, file: &str) -> HandlerOutput {
    match state.handle_save(uri, None) {
        Action::ReadFile(save) => {
            assert_eq!(Some(&save.path), uri.path.as_ref());
            let next = state.saved_file_read(save, Ok(LimitedFileRead::Text(file.to_string())));
            carry_out(state, next)
        }
        other => panic!("expected a file to be read, got {other:?}"),
    }
}

fn open(state: &mut ServerState, uri: &UriInfo, version: i32, text: &str) -> HandlerOutput {
    let action = state.handle_open(uri, version, text);
    carry_out(state, action)
}

fn full(text: &str) -> ContentChange {
    ContentChange { has_range: false, text: text.to_string() }
}

fn partial(text: &str) -> ContentChange {
    ContentChange { has_range: true, text: text.to_string() }
}

fn change(
    state: &mut ServerState,
    uri: &UriInfo,
    version: i32,
    changes: Vec<ContentChange>,
) -> HandlerOutput {
    let action = state.handle_change(uri, version, &changes);
    carry_out(state, action)
}

fn save(state: &mut ServerState, uri: &UriInfo, text: Option<&str>) -> HandlerOutput {
    let action = state.handle_save(uri, text.map(|t| t.to_string()));
    carry_out(state, action)
}

fn server() -> ServerState {
    ServerState::new("/workspace".to_string())
}

// --- uris ---

#[test]
fn uri_sql_file_uri_filter_accepts_only_file_sql() {
    assert!(is_sql_file_uri("file:///tmp/migration.sql", false));
    assert!(is_sql_file_uri("file://db.example/tmp/migration.sql", false));
    assert!(!is_sql_file_uri("file:///tmp/readme.txt", false));
    assert!(!is_sql_file_uri("file:///tmp/%FF.sql", false));
    assert!(!is_sql_file_uri("untitled:///migration.sql", false));
}

#[test]
fn uri_file_uri_to_path_decodes_percent_encoded_paths() {
    let path = file_uri_to_path("file:///tmp/space%20dir/up.sql", false).unwrap();
    assert_eq!(path.as_str(), "/tmp/space dir/up.sql");
}

#[test]
fn uri_file_uri_to_path_accepts_localhost_and_strips_query_fragment() {
    let path = file_uri_to_path("file://localhost/tmp/up.sql?rev=1#section", false).unwrap();
    assert_eq!(path.as_str(), "/tmp/up.sql");
}

#[test]
fn uri_file_uri_to_path_rejects_remote_authority() {
    assert!(file_uri_to_path("file://db.example/tmp/up.sql", false).is_none());
}

#[test]
fn uri_file_uri_to_path_rejects_invalid_percent_encoding() {
    assert!(percent_decode_utf8("/tmp/bad%2.sql").is_err());
    assert!(percent_decode_utf8("/tmp/bad%GG.sql").is_err());
}

#[test]
fn lsp_file_uri_to_path_rejects_invalid_percent_encoding() {
    assert!(percent_decode_utf8("/tmp/bad%2.sql").is_err());
    assert!(percent_decode_utf8("/tmp/bad%GG.sql").is_err());
}

#[test]
fn tests_file_uri_to_path_rejects_invalid_percent_encoding() {
    assert!(percent_decode_utf8("/tmp/bad%2.sql").is_err());
    assert!(percent_decode_utf8("/tmp/bad%GG.sql").is_err());
}

#[test]
fn uri_file_uri_to_path_rejects_invalid_utf8_escape() {
    assert!(file_uri_to_path("file:///tmp/%FF.sql", false).is_none());
}

#[test]
fn percent_encoding_joins_the_bytes_of_a_character() {
    assert_eq!(percent_decode_utf8("%C3%A9t%c3%A9 %").unwrap_or_default(), "");
    assert_eq!(percent_decode_utf8("%C3%A9t%c3%A9").unwrap(), "été");
    assert_eq!(percent_decode_utf8("plain").unwrap(), "plain");
}

#[test]
fn sql_extension_is_that_of_the_last_component() {
    assert!(is_sql_file_uri("file:///tmp/UP.SQL", false));
    assert!(is_sql_file_uri("file:///tmp/up.sql/", false));
    assert!(is_sql_file_uri("file:///tmp/a.up.sql?x=.txt", false));
    assert!(!is_sql_file_uri("file:///tmp/.sql", false));
    assert!(!is_sql_file_uri("file:///tmp.sql/up", false));
    assert!(!is_sql_file_uri("file:///tmp/up.sql/..", false));
    assert!(!is_sql_file_uri("file:///tmp/sql", false));
    assert!(!is_sql_file_uri("file:///tmp/up.sql2", false));
}

#[test]
fn uri_info_tells_sql_from_path() {
    let info = UriInfo::of("file://db.example/up.sql", false);
    assert_eq!(info.uri, "file://db.example/up.sql");
    assert!(info.is_sql);
    assert!(info.path.is_none());
}

#[test]
fn transport_workspace_root_selection_uses_workspace_folder_then_root_uri_then_cwd() {
    let cwd = "/fallback";
    assert_eq!(
        select_workspace_root(Some("file:///workspace-folder"), Some("file:///root-uri"), cwd, false),
        "/workspace-folder"
    );
    assert_eq!(select_workspace_root(None, Some("file:///root-uri"), cwd, false), "/root-uri");
    assert_eq!(select_workspace_root(None, None, cwd, false), "/fallback");
    assert_eq!(
        select_workspace_root(Some("untitled:x"), Some("file:///root-uri"), cwd, false),
        "/root-uri"
    );
}

// --- diagnostics ---

#[test]
fn diagnostics_violation_diagnostic_mapping_sets_core_fields() {
    let violation = Violation::new(
        "DROP COLUMN",
        "Drops data.",
        "Backfill then ignore the column first.",
    )
    .with_check_name("DropColumnCheck")
    .with_severity(Severity::Warning);
    let diagnostics = violations_to_diagnostics(
        "-- comment\nALTER TABLE users DROP COLUMN email;",
        &vec![(2, violation)],
    );

    let diagnostic = &diagnostics[0];
    assert_eq!(diagnostic.range.start.line, 1);
    assert_eq!(diagnostic.severity, DiagnosticSeverity::Warning);
    assert_eq!(diagnostic.code, Some("DropColumnCheck".to_string()));
    assert_eq!(diagnostic.source, DIAGNOSTIC_SOURCE);
    assert_eq!(
        diagnostic.message,
        "Drops data. Safe alternative: Backfill then ignore the column first."
    );
}

#[test]
fn diagnostics_diagnostic_range_uses_utf16_length() {
    let violation = Violation::new("op", "problem", "safe");
    let diagnostics = violations_to_diagnostics(
        "SELECT 1;\nALTER TABLE users ADD COLUMN emoji TEXT DEFAULT '😀';",
        &vec![(2, violation)],
    );
    assert_eq!(
        diagnostics[0].range.end.character,
        u32::try_from(
            "ALTER TABLE users ADD COLUMN emoji TEXT DEFAULT '😀';"
                .encode_utf16()
                .count()
        )
        .unwrap()
    );
}

#[test]
fn diagnostics_byte_offset_to_position_tracks_multiline_utf16_offsets() {
    let text = "SELECT 1;\nSELECT '😀';";
    let offset = text.find('😀').unwrap() + '😀'.len_utf8();
    let position = byte_offset_to_position(text, offset);

    assert_eq!(position.line, 1);
    assert_eq!(
        position.character,
        u32::try_from("SELECT '😀".encode_utf16().count()).unwrap()
    );
}

#[test]
fn byte_offset_to_position_of_every_boundary() {
    let text = "aé\n😀b\n\nc";
    for (offset, _) in text.char_indices() {
        let before = &text[..offset];
        let line = before.matches('\n').count() as u32;
        let column = before.rsplit('\n').next().unwrap().encode_utf16().count() as u32;
        assert_eq!(
            byte_offset_to_position(text, offset),
            Position { line, character: column },
            "{offset}"
        );
    }
    assert_eq!(byte_offset_to_position(text, 1000), Position { line: 3, character: 1 });
}

#[test]
fn diagnostics_diagnostic_mapping_omits_empty_check_name() {
    let violation = Violation::new("op", "problem", "");
    let diagnostics = violations_to_diagnostics("SELECT 1;", &vec![(1, violation)]);

    assert_eq!(diagnostics[0].severity, DiagnosticSeverity::Error);
    assert!(diagnostics[0].code.is_none());
    assert_eq!(diagnostics[0].message, "problem");
}

#[test]
fn diagnostics_diagnostic_mapping_handles_out_of_range_line() {
    let violation = Violation::new("op", "problem", "safe");
    let diagnostics = violations_to_diagnostics("SELECT 1;", &vec![(99, violation)]);

    assert_eq!(diagnostics[0].range.start.line, 98);
    assert_eq!(diagnostics[0].range.end.character, 0);
}

#[test]
fn saved_parse_diagnostic_is_tracked_and_cleared() {
    let mut state = server();
    let uri = UriInfo::of("file:///tmp/bad.sql", false);

    let output = save_with_file(&mut state, &uri, BAD_SQL);
    assert_eq!(output.diagnostics.len(), 1);
    assert_eq!(output.diagnostics[0].diagnostics.len(), 1);
    assert!(state.is_published(&uri.uri));

    let output = open(&mut state, &uri, 2, &" ".repeat(MAX_LIVE_DOCUMENT_BYTES + 1));

    assert_eq!(output.diagnostics.len(), 1);
    assert!(output.diagnostics[0].diagnostics.is_empty());
    assert!(!state.is_published(&uri.uri));
}

// --- documents ---

#[test]
fn documents_document_open_change_and_close_update_state() {
    let mut state = server();
    let uri = UriInfo::of("file:///tmp/open.sql", false);

    open(&mut state, &uri, 1, "SELECT 1;");
    assert_eq!(state.document(&uri.uri).unwrap().version, Some(1));

    change(&mut state, &uri, 2, vec![full("SELECT 2;")]);
    assert_eq!(state.document(&uri.uri).unwrap().text.as_deref(), Some("SELECT 2;"));

    let output = state.handle_close(&uri);
    assert!(state.document(&uri.uri).is_none());
    assert_eq!(output.diagnostics.len(), 1);
    assert!(output.diagnostics[0].diagnostics.is_empty());
}

#[test]
fn documents_closing_sql_document_removes_published_state() {
    let mut state = server();
    let uri = UriInfo::of("file:///tmp/published.sql", false);
    state.track_published_uri(&uri.uri);

    let output = state.handle_close(&uri);

    assert_eq!(output.diagnostics.len(), 1);
    assert!(!state.is_published(&uri.uri));
}

#[test]
fn documents_did_change_uses_final_full_sync_change() {
    let mut state = server();
    let uri = UriInfo::of("file:///tmp/change.sql", false);

    change(&mut state, &uri, 7, vec![full("SELECT 1;"), full("SELECT 2;")]);

    assert_eq!(state.document(&uri.uri).unwrap().text.as_deref(), Some("SELECT 2;"));
    assert_eq!(state.document(&uri.uri).unwrap().version, Some(7));
}

#[test]
fn documents_unchanged_did_change_skips_duplicate_diagnostics() {
    let mut state = server();
    let uri = UriInfo::of("file:///tmp/unchanged.sql", false);

    open(&mut state, &uri, 1, "SELECT 1;");
    let output = change(&mut state, &uri, 1, vec![full("SELECT 1;")]);

    assert!(output.diagnostics.is_empty());
}

#[test]
fn documents_live_diagnostics_precheck_clears_non_sql_if_published() {
    let mut state = server();
    let uri = UriInfo::of("file:///tmp/readme.txt", false);
    state.track_published_uri(&uri.uri);

    let action = state.run_live_diagnostics(&uri, "not sql", Some(8));
    let output = carry_out(&mut state, action);

    assert_eq!(output.diagnostics.len(), 1);
    assert!(output.diagnostics[0].diagnostics.is_empty());
    assert_eq!(output.diagnostics[0].version, Some(8));
}

#[test]
fn documents_non_sql_documents_are_not_tracked() {
    let mut state = server();
    let uri = UriInfo::of("file:///tmp/readme.md", false);

    let output = open(&mut state, &uri, 1, "# notes");

    assert!(output.diagnostics.is_empty());
    assert!(state.document(&uri.uri).is_none());
}

#[test]
fn documents_tracked_sql_documents_are_bounded() {
    let mut state = server();

    for index in 0..=MAX_TRACKED_DOCUMENTS {
        let uri = UriInfo::of(&format!("file:///tmp/doc_{index}.sql"), false);
        open(&mut state, &uri, i32::try_from(index).unwrap(), "SELECT 1;");
    }

    assert_eq!(state.document_count(), MAX_TRACKED_DOCUMENTS);
}

#[test]
fn documents_incremental_change_document_tracking_is_bounded() {
    let mut state = server();

    for index in 0..=MAX_TRACKED_DOCUMENTS {
        let uri = UriInfo::of(&format!("file:///tmp/incremental_{index}.sql"), false);
        change(&mut state, &uri, i32::try_from(index).unwrap(), vec![partial("SELECT 1;")]);
    }

    assert_eq!(state.document_count(), MAX_TRACKED_DOCUMENTS);
}

#[test]
fn documents_published_diagnostic_tracking_is_bounded_and_clears_evictions() {
    let mut state = server();
    let violations = vec![(
        1,
        Violation::new("unsafe operation", "problem", "safe alternative")
            .with_check_name("TestCheck"),
    )];

    for index in 0..=MAX_PUBLISHED_DIAGNOSTIC_URIS {
        let current_uri = format!("file:///tmp/published_{index}.sql");
        let events = state.violations_events(&current_uri, "SELECT 1;", &violations, None);
        if index < MAX_PUBLISHED_DIAGNOSTIC_URIS {
            assert_eq!(events.len(), 1);
        } else {
            assert_eq!(events.len(), 2);
            assert!(events[0].diagnostics.is_empty());
            assert_eq!(events[0].uri, "file:///tmp/published_0.sql");
            assert!(!events[1].diagnostics.is_empty());
        }
    }

    assert_eq!(state.published_count(), MAX_PUBLISHED_DIAGNOSTIC_URIS);
    assert!(!state.is_published("file:///tmp/published_0.sql"));
    assert!(state.is_published(&format!(
        "file:///tmp/published_{MAX_PUBLISHED_DIAGNOSTIC_URIS}.sql"
    )));
}

#[test]
fn documents_incremental_change_invalidates_saved_text_fallback() {
    let mut state = server();
    let uri = UriInfo::of("file:///tmp/missing.sql", false);

    open(&mut state, &uri, 1, UNSAFE_SQL);
    assert!(state.document(&uri.uri).unwrap().text.is_some());

    change(&mut state, &uri, 2, vec![partial("SELECT")]);
    assert!(state.document(&uri.uri).unwrap().text.is_none());

    let output = save(&mut state, &uri, None);

    assert_eq!(output.diagnostics.len(), 1);
    assert!(output.diagnostics[0].diagnostics.is_empty());
    assert_eq!(output.messages.len(), 1);
    assert_eq!(output.messages[0].typ, MessageType::Error);
    assert!(output.messages[0].message.contains("Failed to read saved SQL file"));
}

#[test]
fn documents_oversized_live_sql_document_does_not_store_fallback_text() {
    let mut state = server();
    let uri = UriInfo::of("file:///tmp/large.sql", false);

    open(
        &mut state,
        &uri,
        1,
        &format!("{}\n{UNSAFE_SQL}", " ".repeat(MAX_LIVE_DOCUMENT_BYTES + 1)),
    );
    assert!(state.document(&uri.uri).unwrap().text.is_none());

    let output = save(&mut state, &uri, None);

    assert_eq!(output.diagnostics.len(), 1);
    assert!(output.diagnostics[0].diagnostics.is_empty());
    assert_eq!(output.messages.len(), 1);
    assert_eq!(output.messages[0].typ, MessageType::Error);
    assert!(output.messages[0].message.contains("Failed to read saved SQL file"));
}

#[test]
fn documents_incompatible_incremental_change_clears_and_logs() {
    let mut state = server();
    let uri = UriInfo::of("file:///tmp/incremental.sql", false);
    state.track_published_uri(&uri.uri);

    let output = change(&mut state, &uri, 2, vec![partial("x")]);

    assert_eq!(output.diagnostics.len(), 1);
    assert!(output.diagnostics[0].diagnostics.is_empty());
    assert_eq!(output.messages.len(), 1);
    assert_eq!(
        output.messages[0].message,
        "Received incremental textDocument/didChange despite full-sync capability; diagnostics were cleared."
    );
}

#[test]
fn documents_repeated_incompatible_incremental_change_does_not_repeat_log() {
    let mut state = server();
    let uri = UriInfo::of("file:///tmp/repeated-incremental.sql", false);
    state.track_published_uri(&uri.uri);

    let first = change(&mut state, &uri, 2, vec![partial("x")]);
    assert_eq!(first.diagnostics.len(), 1);
    assert_eq!(first.messages.len(), 1);

    state.track_published_uri(&uri.uri);
    let second = change(&mut state, &uri, 3, vec![partial("y")]);

    assert_eq!(second.diagnostics.len(), 1);
    assert!(second.messages.is_empty());
}

// --- live and saved text ---

#[test]
fn live_save_live_malformed_sql_clears_without_message() {
    let mut state = server();
    let uri = UriInfo::of("file:///tmp/bad.sql", false);
    state.track_published_uri(&uri.uri);
    let output = open(&mut state, &uri, 1, BAD_SQL);

    assert_eq!(output.diagnostics.len(), 1);
    assert!(output.diagnostics[0].diagnostics.is_empty());
    assert!(!state.is_published(&uri.uri));
    assert!(output.messages.is_empty());
}

fn finish_with_config_error(state: &mut ServerState, action: Action) -> HandlerOutput {
    match action {
        Action::Check(pending) => {
            let err = ConfigError::InvalidFile { message: "Missing required field".to_string() };
            let statements = parse(&pending.text);
            state.finish_check(pending, Err(err), statements, &MigrationContext::default())
        }
        other => panic!("expected a check, got {other:?}"),
    }
}

#[test]
fn config_error_clears_and_emits_message() {
    let mut state = server();
    let uri = UriInfo::of("file:///tmp/config-error.sql", false);
    let action = state.handle_open(&uri, 1, "SELECT 1;");
    let output = finish_with_config_error(&mut state, action);

    assert_eq!(output.diagnostics.len(), 1);
    assert!(output.diagnostics[0].diagnostics.is_empty());
    assert_eq!(output.messages[0].typ, MessageType::Error);
    assert_eq!(
        output.messages[0].message,
        "Failed to load diesel-guard configuration for the workspace: Missing required field"
    );
}

#[test]
fn repeated_config_error_clears_without_repeating_message() {
    let mut state = server();
    let uri = UriInfo::of("file:///tmp/repeated-config-error.sql", false);

    let action = state.handle_open(&uri, 1, "SELECT 1;");
    let output = finish_with_config_error(&mut state, action);
    assert_eq!(output.diagnostics.len(), 1);
    assert!(output.diagnostics[0].diagnostics.is_empty());
    assert_eq!(output.messages.len(), 1);

    let action = state.handle_change(&uri, 2, &vec![full("SELECT 2;")]);
    let output = finish_with_config_error(&mut state, action);

    assert_eq!(output.diagnostics.len(), 1);
    assert!(output.diagnostics[0].diagnostics.is_empty());
    assert!(output.messages.is_empty());

    // Once a checker could be loaded, the error is news again.
    assert!(load(&mut state, Config::default()).is_ok());
    let action = state.handle_change(&uri, 3, &vec![full("SELECT 3;")]);
    let output = finish_with_config_error(&mut state, action);
    assert_eq!(output.messages.len(), 1);
}

#[test]
fn saved_malformed_sql_publishes_parse_diagnostic() {
    let mut state = server();
    let uri = UriInfo::of("file:///tmp/bad.sql", false);
    let output = save_with_file(&mut state, &uri, BAD_SQL);

    assert_eq!(output.diagnostics.len(), 1);
    assert_eq!(output.diagnostics[0].diagnostics.len(), 1);
    let diagnostic = &output.diagnostics[0].diagnostics[0];
    assert_eq!(diagnostic.code, Some("ParseError".to_string()));
    assert_eq!(diagnostic.range.start, Position { line: 0, character: 13 });
    assert_eq!(diagnostic.range.end, Position { line: 0, character: 13 });
    assert_eq!(
        diagnostic.message,
        "Failed to parse SQL: Invalid statement: syntax error at or near \"@\""
    );
}

#[test]
fn saved_unopened_sql_file_checks_from_disk() {
    let mut state = server();
    let uri = UriInfo::of("file:///tmp/unsafe.sql", false);
    let output = save_with_file(&mut state, &uri, UNSAFE_SQL);

    assert_eq!(output.diagnostics.len(), 1);
    assert!(!output.diagnostics[0].diagnostics.is_empty());
}

#[test]
fn saved_readable_sql_file_prefers_disk_snapshot_over_editor_text() {
    let mut state = server();
    let uri = UriInfo::of("file:///tmp/safe.sql", false);
    let output = match state.handle_save(&uri, Some(UNSAFE_SQL.to_string())) {
        Action::ReadFile(save) => {
            let read = Ok(LimitedFileRead::Text("SELECT 1;".to_string()));
            let next = state.saved_file_read(save, read);
            carry_out(&mut state, next)
        }
        other => panic!("expected a file to be read, got {other:?}"),
    };

    assert_eq!(output.diagnostics.len(), 1);
    assert!(output.diagnostics[0].diagnostics.is_empty());
}

#[test]
fn live_save_saved_unreadable_sql_file_falls_back_to_editor_text() {
    let mut state = server();
    let uri = UriInfo::of("file:///tmp/missing.sql", false);
    let output = save(&mut state, &uri, Some(UNSAFE_SQL));

    assert_eq!(output.diagnostics.len(), 1);
    assert!(!output.diagnostics[0].diagnostics.is_empty());
    assert_eq!(output.messages.len(), 1);
    assert_eq!(output.messages[0].typ, MessageType::Log);
    assert!(output.messages[0].message.contains("checked in-memory text"));
}

#[test]
fn live_save_oversized_live_sql_document_skips_diagnostics() {
    let mut state = server();
    let uri = UriInfo::of("file:///tmp/large.sql", false);
    let output = open(&mut state, &uri, 1, &" ".repeat(MAX_LIVE_DOCUMENT_BYTES + 1));

    assert!(state.document(&uri.uri).unwrap().text.is_none());
    assert!(output.diagnostics.is_empty());
    assert_eq!(output.messages.len(), 1);
    assert!(output.messages[0].message.contains("Skipping live diagnostics"));
    assert!(output.messages[0].message.contains("larger than 1000000 bytes"));
}

#[test]
fn oversized_saved_sql_file_skips_diagnostics() {
    let mut state = server();
    let uri = UriInfo::of("file:///tmp/large.sql", false);
    state.track_published_uri(&uri.uri);
    let output = match state.handle_save(&uri, None) {
        Action::ReadFile(save) => {
            let next = state.saved_file_read(save, Ok(LimitedFileRead::TooLarge));
            carry_out(&mut state, next)
        }
        other => panic!("expected a file to be read, got {other:?}"),
    };

    assert_eq!(output.diagnostics.len(), 1);
    assert!(output.diagnostics[0].diagnostics.is_empty());
    assert_eq!(output.messages.len(), 1);
    assert!(output.messages[0].message.contains("Skipping saved-file diagnostics"));
    assert!(!state.is_published(&uri.uri));
}

#[test]
fn live_save_oversized_saved_sql_text_skips_diagnostics() {
    let mut state = server();
    let oversized_len = usize::try_from(MAX_SAVED_DOCUMENT_BYTES).unwrap() + 1;
    let uri = UriInfo::of("file:///tmp/missing.sql", false);
    state.track_published_uri(&uri.uri);
    let output = save(&mut state, &uri, Some(&" ".repeat(oversized_len)));

    assert_eq!(output.diagnostics.len(), 1);
    assert!(output.diagnostics[0].diagnostics.is_empty());
    assert_eq!(output.messages.len(), 1);
    assert!(output.messages[0].message.contains("Skipping saved-text diagnostics"));
    assert!(!state.is_published(&uri.uri));
}

#[test]
fn saved_document_without_path_or_text_is_an_error() {
    let mut state = server();
    let uri = UriInfo::of("file://db.example/up.sql", false);
    let output = save(&mut state, &uri, None);
    assert_eq!(output.messages.len(), 1);
    assert_eq!(
        output.messages[0].message,
        "Saved SQL document has no readable file path or in-memory text."
    );

    // With a text it is checked, without the context of a migration file.
    match state.handle_save(&uri, Some(UNSAFE_SQL.to_string())) {
        Action::Check(pending) => {
            assert_eq!(pending.kind, CheckKind::SavedText);
            assert!(pending.path.is_none());
        }
        other => panic!("expected a check, got {other:?}"),
    }
}

#[test]
fn documents_that_become_safe_are_cleared() {
    let mut state = server();
    let uri = UriInfo::of("file:///tmp/fixed.sql", false);
    let output = open(&mut state, &uri, 1, UNSAFE_SQL);
    assert_eq!(output.diagnostics[0].diagnostics.len(), 1);
    assert!(state.is_published(&uri.uri));

    let output = change(&mut state, &uri, 2, vec![full("SELECT 1;")]);
    assert_eq!(output.diagnostics.len(), 1);
    assert!(output.diagnostics[0].diagnostics.is_empty());
    assert_eq!(output.diagnostics[0].version, Some(2));
    assert!(!state.is_published(&uri.uri));
}

#[test]
fn checks_that_fail_are_reported() {
    let mut state = server();
    let uri = UriInfo::of("file:///tmp/failing.sql", false);
    assert!(load(&mut state, Config::default()).is_ok());
    let action = state.handle_open(&uri, 1, "SELECT 1;");
    let output = match action {
        Action::Check(pending) => state.finish_check(
            pending,
            Ok(vec![]),
            Err(DieselGuardError::IoError("gone".to_string())),
            &MigrationContext::default(),
        ),
        other => panic!("expected a check, got {other:?}"),
    };
    assert_eq!(output.diagnostics.len(), 1);
    assert_eq!(output.messages.len(), 1);
    assert_eq!(
        output.messages[0].message,
        "Failed to check SQL document: Failed to read file"
    );
}

#[test]
fn custom_checks_repeated_check_warnings_are_logged_once() {
    let mut state = server();
    let uri = UriInfo::of("file:///tmp/repeated-warning.sql", false);
    let first_sql = "-- diesel-guard:disable FakeCheckThatDoesNotExist\nSELECT 1;";
    let second_sql = "-- diesel-guard:disable FakeCheckThatDoesNotExist\nSELECT 2;";

    let first = open(&mut state, &uri, 1, first_sql);
    let second = change(&mut state, &uri, 2, vec![full(second_sql)]);

    assert_eq!(first.messages.len(), 1);
    assert!(first.messages[0].message.contains("FakeCheckThatDoesNotExist"));
    assert!(second.messages.is_empty());
}

// --- configuration and custom checks ---

#[test]
fn config_load_from_workspace_without_config_returns_default() {
    assert_eq!(
        load_lsp_config("/workspace", Ok(Config::default())).unwrap().framework,
        "diesel"
    );
}

#[test]
fn config_loading_from_workspace_normalizes_custom_checks_dir() {
    let relative = Config { custom_checks_dir: Some("checks".to_string()), ..Config::default() };
    let config = load_lsp_config("/workspace", Ok(relative)).unwrap();
    assert_eq!(config.custom_checks_dir.as_deref(), Some("/workspace/checks"));

    let absolute = Config { custom_checks_dir: Some("/checks".to_string()), ..Config::default() };
    let config = load_lsp_config("/workspace", Ok(absolute)).unwrap();
    assert_eq!(config.custom_checks_dir.as_deref(), Some("/checks"));
}

#[test]
fn lsp_config_loader_rejects_oversized_config() {
    let err = load_lsp_config(
        "/workspace",
        Err(ConfigError::ConfigTooLarge { message: "too large".to_string() }),
    )
    .unwrap_err();
    assert!(matches!(err, ConfigError::ConfigTooLarge { .. }));
}

#[test]
fn custom_check_warnings_are_collected_for_lsp() {
    let mut state = server();
    let custom = CustomChecks {
        names: vec!["bad".to_string()],
        checks: vec![],
        errors: vec![ScriptError {
            stem: Some("bad".to_string()),
            message: "Compilation error: bad.rhai".to_string(),
        }],
    };
    let warnings = state.build_cached_checker(inputs(Config::default()), custom).unwrap();
    assert_eq!(warnings, vec!["Compilation error: bad.rhai"]);
    assert!(state.checker().is_some());
}

#[test]
fn cached_lsp_checker_does_not_replay_custom_check_warnings() {
    let mut state = server();
    let key = inputs(Config::default()).key;
    assert!(!state.cached_checker(&key));
    assert!(load(&mut state, Config::default()).is_ok());
    assert!(state.cached_checker(&key));
}

#[test]
fn lsp_checker_cache_refreshes_when_custom_check_changes() {
    let mut state = server();
    let key_of = |content: &str| {
        let mut collector = SignatureCollector::new("checks", 10, 100);
        collector.next_entry().unwrap();
        collector.admit_script().unwrap();
        let bytes = content.as_bytes().to_vec();
        let len = Some(bytes.len() as u64);
        collector
            .add_script("checks/always_fire.rhai".to_string(), Some(1), len, Some(bytes))
            .unwrap();
        CheckerCacheKey {
            config: Config::default(),
            custom_checks_signature: collector.finish(),
        }
    };
    let inputs = CheckerInputs {
        config: Config::default(),
        key: key_of("return 1;"),
        warnings: vec![],
    };
    assert!(state.build_cached_checker(inputs, no_custom_checks()).is_ok());
    assert!(state.cached_checker(&key_of("return 1;")));
    assert!(!state.cached_checker(&key_of("return 2;")));
}

#[test]
fn cached_checker_depends_on_the_configuration() {
    let mut state = server();
    assert!(load(&mut state, Config::default()).is_ok());
    assert!(state.cached_checker(&inputs(Config::default()).key));
    assert!(!state.cached_checker(&inputs(add_column_only()).key));
}

#[test]
fn invalid_configuration_is_not_cached() {
    let mut state = server();
    let config = Config { warn_checks: vec!["Nothing".to_string()], ..Config::default() };
    let err = load(&mut state, config).unwrap_err();
    assert_eq!(err.message(), "Invalid check name: Nothing");
    assert!(state.checker().is_none());
}

#[test]
fn small_custom_check_signature_changes_when_same_length_content_changes() {
    let signature = |content: &str| {
        let mut collector = SignatureCollector::new("checks", 10, 100);
        let bytes = content.as_bytes().to_vec();
        let len = Some(bytes.len() as u64);
        collector.add_script("same_len.rhai".to_string(), None, len, Some(bytes)).unwrap();
        collector.finish()
    };
    let first = signature("return 1;");
    let second = signature("return 2;");

    assert_eq!(first.len(), 1);
    assert_eq!(second.len(), 1);
    assert_eq!(first[0].len, second[0].len);
    assert!(first[0].content_hash.is_some());
    assert_ne!(first[0].content_hash, second[0].content_hash);
    assert_eq!(first[0].content_hash, signature("return 1;")[0].content_hash);
}

#[test]
fn script_hashes_are_those_of_their_bytes_as_a_vector() {
    for content in ["", "return 1;", "fn describe() { \"é\" }"] {
        let bytes = content.as_bytes().to_vec();
        let mut hasher = DefaultHasher::new();
        bytes.hash(&mut hasher);
        let mut total = 0;
        let len = Some(bytes.len() as u64);
        let hash = custom_check_signature_hash("a.rhai", len, Some(bytes), &mut total, 100);
        assert_eq!(hash.unwrap(), Some(hasher.finish()));
        assert_eq!(total, content.len() as u64);
    }
}

#[test]
fn custom_check_signature_is_sorted() {
    let mut collector = SignatureCollector::new("checks", 10, 100);
    for name in ["zeta.rhai", "alpha.rhai", "mid.rhai", "alpha.rhai2"] {
        collector.add_script(name.to_string(), None, None, None).unwrap();
    }
    let signature = collector.finish();
    let paths: Vec<&str> = signature.iter().map(|entry| entry.path.as_str()).collect();
    assert_eq!(paths, vec!["alpha.rhai", "alpha.rhai2", "mid.rhai", "zeta.rhai"]);
}

#[test]
fn custom_check_signature_rejects_too_many_rhai_files() {
    let mut collector = SignatureCollector::new("checks", 100, 100);
    for index in 0..MAX_LSP_CUSTOM_CHECK_FILES {
        collector.admit_script().unwrap();
        collector.add_script(format!("check_{index}.rhai"), None, None, None).unwrap();
    }
    let err = collector.admit_script().unwrap_err();

    assert!(matches!(err, ConfigError::CustomChecksTooLarge { .. }));
    assert_eq!(err.message(), "more than 16 .rhai custom check files in checks");
}

#[test]
fn custom_check_signature_rejects_too_many_entries() {
    let mut collector = SignatureCollector::new("checks", 2, 100);
    assert!(collector.next_entry().is_ok());
    assert!(collector.next_entry().is_ok());
    let err = collector.next_entry().unwrap_err();
    assert_eq!(err.message(), "more than 2 directory entries in checks");
}

#[test]
fn custom_check_hash_reader_enforces_limit_during_read() {
    let mut total: u64 = 0;
    let err = custom_check_signature_hash(
        "large.rhai",
        Some(3),
        Some(vec![32; 11]),
        &mut total,
        10,
    )
    .unwrap_err();
    assert!(matches!(err, ConfigError::CustomChecksTooLarge { .. }));
    assert_eq!(
        err.message(),
        "custom check file grew beyond 10 bytes while hashing: large.rhai"
    );
    assert_eq!(total, 0);
    // A script that is known to be too long is not read at all.
    assert_eq!(
        custom_check_signature_hash("large.rhai", Some(11), None, &mut total, 10).unwrap(),
        None
    );
}

#[test]
fn custom_check_hash_budget_is_shared() {
    let mut total: u64 = MAX_LSP_CUSTOM_CHECK_TOTAL_SOURCE_BYTES - 5;
    assert!(enforce_lsp_custom_check_hash_budget(&mut total, 5).is_ok());
    assert_eq!(total, MAX_LSP_CUSTOM_CHECK_TOTAL_SOURCE_BYTES);
    let err = enforce_lsp_custom_check_hash_budget(&mut total, 1).unwrap_err();
    assert_eq!(
        err.message(),
        "more than 262144 bytes of custom check content would be hashed"
    );
    assert!(enforce_lsp_custom_check_hash_budget(&mut total, u64::MAX).is_err());
}

#[test]
fn oversized_custom_check_directory_keeps_builtin_lsp_diagnostics() {
    let config = Config { custom_checks_dir: Some("checks".to_string()), ..add_column_only() };
    let too_large = ConfigError::CustomChecksTooLarge { message: "too many".to_string() };
    let inputs = checker_cache_key_with_lsp_fallback(config, Err(too_large)).unwrap();
    assert!(inputs.config.custom_checks_dir.is_none());

    let mut state = server();
    let warnings = state.build_cached_checker(inputs, no_custom_checks()).unwrap();
    let uri = UriInfo::of("file:///tmp/unsafe.sql", false);
    let output = match state.handle_open(&uri, 1, UNSAFE_SQL) {
        Action::Check(pending) => {
            let statements = parse(&pending.text);
            state.finish_check(pending, Ok(warnings), statements, &MigrationContext::default())
        }
        other => panic!("expected a check, got {other:?}"),
    };

    assert_eq!(output.diagnostics.len(), 1);
    assert!(!output.diagnostics[0].diagnostics.is_empty());
    assert_eq!(
        output.messages[0].message,
        "Custom checks are disabled for LSP diagnostics: too many"
    );
}

#[test]
fn other_config_errors_are_not_a_reason_to_go_on() {
    let err = checker_cache_key_with_lsp_fallback(
        Config::default(),
        Err(ConfigError::InvalidFile { message: "bad".to_string() }),
    )
    .unwrap_err();
    assert_eq!(err.message(), "bad");
}

#[test]
fn saved_file_reader_enforces_limit_during_read() {
    let oversized_len = usize::try_from(MAX_SAVED_DOCUMENT_BYTES).unwrap() + 1;
    let result =
        limited_bytes_to_string(vec![32; oversized_len], MAX_SAVED_DOCUMENT_BYTES).unwrap();
    assert!(matches!(result, LimitedFileRead::TooLarge));

    let result = limited_bytes_to_string("é".as_bytes().to_vec(), 2).unwrap();
    assert!(matches!(result, LimitedFileRead::Text(text) if text == "é"));
    assert!(limited_bytes_to_string(vec![0xFF], 2).is_err());
}

// --- messages ---

#[test]
fn transport_initialize_capabilities_advertise_full_sync_and_save() {
    let result = initialize_result();
    assert!(result.open_close);
    assert!(result.full_sync);
    assert!(result.include_saved_text);
    assert_eq!(result.server_name, "diesel-guard");
}

#[test]
fn transport_unsupported_request_uses_method_not_found() {
    let response = unsupported_request_response("workspace/symbol");
    assert_eq!(response.code, lsp_server::ErrorCode::MethodNotFound as i32);
    assert_eq!(response.message, "Unsupported request method: workspace/symbol");
}

#[test]
fn transport_run_loop_returns_error_code_when_exit_precedes_shutdown() {
    let state = server();
    let kind = notification_kind(lsp_types::notification::Exit::METHOD);
    assert_eq!(state.after_notification(kind), LoopControl::Exit(1));
}

#[test]
fn transport_run_loop_replies_to_unsupported_request_before_exit() {
    let mut state = server();
    let answer = state.handle_request(false, "workspace/symbol").unwrap();
    assert_eq!(answer.code, lsp_server::ErrorCode::MethodNotFound as i32);
    let kind = notification_kind(lsp_types::notification::Exit::METHOD);
    assert_eq!(state.after_notification(kind), LoopControl::Exit(1));
}

#[test]
fn transport_run_loop_shutdown_then_exit_returns_success() {
    let mut state = server();
    assert!(state.handle_request(true, "shutdown").is_none());
    let kind = notification_kind(lsp_types::notification::Exit::METHOD);
    assert_eq!(state.after_notification(kind), LoopControl::Exit(0));
    assert_eq!(state.after_notification(NotificationKind::Initialized), LoopControl::Continue);
}

#[test]
fn transport_document_notification_kind_maps_supported_methods() {
    assert_eq!(
        document_notification_kind(lsp_types::notification::DidOpenTextDocument::METHOD),
        Some(DocumentNotificationKind::Open)
    );
    assert_eq!(
        document_notification_kind(lsp_types::notification::DidChangeTextDocument::METHOD),
        Some(DocumentNotificationKind::Change)
    );
    assert_eq!(
        document_notification_kind(lsp_types::notification::DidSaveTextDocument::METHOD),
        Some(DocumentNotificationKind::Save)
    );
    assert_eq!(
        document_notification_kind(lsp_types::notification::DidCloseTextDocument::METHOD),
        Some(DocumentNotificationKind::Close)
    );
    assert_eq!(document_notification_kind("workspace/unknown"), None);
}

#[test]
fn transport_handle_notification_dispatches_did_open() {
    let mut state = server();
    let uri = UriInfo::of("file:///tmp/notify-open.sql", false);
    let kind = notification_kind(lsp_types::notification::DidOpenTextDocument::METHOD);
    assert_eq!(kind, NotificationKind::Document(DocumentNotificationKind::Open));
    let output = open(&mut state, &uri, 3, "SELECT 1;");

    assert!(output.messages.is_empty());
    assert_eq!(state.document(&uri.uri).unwrap().version, Some(3));
}

#[test]
fn transport_handle_document_notification_returns_none_for_unknown_method() {
    assert!(document_notification_kind("workspace/didChangeConfiguration").is_none());
    assert_eq!(
        notification_kind("workspace/didChangeConfiguration"),
        NotificationKind::Unsupported
    );
    assert_eq!(
        notification_kind(lsp_types::notification::Initialized::METHOD),
        NotificationKind::Initialized
    );
}

#[test]
fn transport_malformed_supported_notification_emits_deserialize_message() {
    let output = deserialize_error_output(DocumentNotificationKind::Save, "missing field");

    assert_eq!(output.messages.len(), 1);
    assert_eq!(
        output.messages[0].message,
        "Failed to deserialize didSave notification: missing field"
    );
}

#[test]
fn transport_repeated_unsupported_notifications_do_not_repeat_log() {
    let mut state = server();

    let first = state.unsupported_notification_output("workspace/didChangeConfiguration");
    assert_eq!(first.messages.len(), 1);
    assert_eq!(
        first.messages[0].message,
        "Ignoring unsupported notification: workspace/didChangeConfiguration"
    );

    let second = state.unsupported_notification_output("workspace/didChangeConfiguration");
    assert!(second.messages.is_empty());
}

#[test]
fn protocol_errors_are_named_as_such() {
    assert_eq!(
        protocol_error("closed").message(),
        "Failed to parse SQL: LSP protocol error: closed"
    );
}

#[test]
fn custom_check_files_are_regular_rhai_files() {
    assert!(is_custom_check_file(Some("rhai"), true));
    assert!(!is_custom_check_file(Some("rhai"), false));
    assert!(!is_custom_check_file(Some("RHAI"), true));
    assert!(!is_custom_check_file(Some("sql"), true));
    assert!(!is_custom_check_file(None, true));
}

#[test]
fn only_relative_check_directories_move_into_the_workspace() {
    assert_eq!(used_checks_dir("checks", Some("/w/checks".to_string())), "/w/checks");
    assert_eq!(used_checks_dir("/checks", None), "/checks");
    let config = Config { custom_checks_dir: Some("/checks".to_string()), ..Config::default() };
    let loaded = load_lsp_config("/w", Ok(config)).unwrap();
    assert_eq!(loaded.custom_checks_dir.as_deref(), Some("/checks"));
    for (root, dir, expected) in [
        ("/w", "checks", "/w/checks"),
        ("/w/", "checks", "/w/checks"),
        ("", "checks", "checks"),
        ("/w", "", "/w/"),
        ("/w", "a/../b", "/w/a/../b"),
    ] {
        let config = Config { custom_checks_dir: Some(dir.to_string()), ..Config::default() };
        let loaded = load_lsp_config(root, Ok(config)).unwrap();
        assert_eq!(loaded.custom_checks_dir.as_deref(), Some(expected));
    }
}

#[test]
fn windows_paths_lose_the_slash_before_the_drive() {
    let uri = "file:///C:/migrations/up.sql";
    assert_eq!(file_uri_to_path(uri, true).as_deref(), Some("C:/migrations/up.sql"));
    assert_eq!(file_uri_to_path(uri, false).as_deref(), Some("/C:/migrations/up.sql"));
    assert!(is_sql_file_uri(uri, true));
    assert!(is_sql_file_uri(uri, false));
    let info = UriInfo::of(uri, true);
    assert!(info.is_sql);
    assert_eq!(info.path.as_deref(), Some("C:/migrations/up.sql"));
    assert_eq!(select_workspace_root(Some("file:///C:/w"), None, "D:/", true), "C:/w");
}

#[test]
fn incomplete_escapes_are_refused() {
    assert_eq!(percent_encoded_byte(b"%41", 0), Ok(0x41));
    assert_eq!(percent_encoded_byte(b"x%4a", 1), Ok(0x4a));
    assert_eq!(percent_encoded_byte(b"%4", 0), Err(()));
    assert_eq!(percent_encoded_byte(b"%41", 1), Err(()));
    assert_eq!(percent_encoded_byte(b"%41", 3), Err(()));
    assert_eq!(percent_encoded_byte(b"%41", usize::MAX), Err(()));
    assert_eq!(percent_encoded_byte(b"%+5", 0), Err(()));
    assert_eq!(percent_encoded_byte(b"%5+", 0), Err(()));
    assert!(percent_decode_utf8("/tmp/bad%+5.sql").is_err());
}

#[test]
fn invalid_text_is_refused_with_its_place() {
    let read = limited_bytes_to_string(vec![b'a', 0xff], 10);
    assert_eq!(read.unwrap_err(), "invalid utf-8 sequence of 1 bytes from index 1");
}
