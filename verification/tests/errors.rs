//! Errors.

use diesel_guard::config::ConfigError;
use diesel_guard::error::{parse_byte_position, DieselGuardError, SourceSpan};

#[test]
fn test_parse_byte_position() {
    let msg = "syntax error at or near \"INVALID\" at position 42";
    assert_eq!(parse_byte_position(msg), Some(41)); // 1-based → 0-based
}

#[test]
fn test_parse_byte_position_no_position() {
    let msg = "some error without position info";
    assert_eq!(parse_byte_position(msg), None);
}

#[test]
fn test_parse_byte_position_single_digit() {
    let msg = "error at position 1";
    assert_eq!(parse_byte_position(msg), Some(0)); // 1-based → 0-based
}

#[test]
fn test_with_file_context_extracts_position_from_message() {
    // ParseError with span=None but message containing "at position N" → span derived from message.
    let err = DieselGuardError::ParseError {
        msg: "syntax error at or near \"X\" at position 5".to_string(),
        src: None,
        span: None,
    };
    let result = err.with_file_context("migration.sql", "SELECT @X;".to_string());
    match result {
        DieselGuardError::ParseError { src, span, .. } => {
            assert!(src.is_some(), "source should be attached");
            let span = span.expect("span should be derived from message position");
            assert_eq!(span.offset, 4); // position 5 → 0-based offset 4
        }
        other => panic!("Expected ParseError, got {other:?}"),
    }
}

#[test]
fn test_with_file_context_passes_through_non_parse_errors() {
    let err = DieselGuardError::IoError("disk full".to_string());
    let result = err.with_file_context("migration.sql", "SELECT 1;".to_string());
    assert!(matches!(result, DieselGuardError::IoError(_)));
}

#[test]
fn last_position_in_a_message_counts() {
    assert_eq!(parse_byte_position("at position 3, at position 17"), Some(16));
    assert_eq!(parse_byte_position("at position 0"), Some(0));
    assert_eq!(parse_byte_position("at position x"), None);
    assert_eq!(parse_byte_position("at position 99999999999999999999999"), None);
    assert_eq!(parse_byte_position("at position 8, column 2"), Some(7));
}

#[test]
fn file_context_keeps_a_known_place() {
    let err = DieselGuardError::ParseError {
        msg: "broken at position 5".to_string(),
        src: None,
        span: Some(SourceSpan { offset: 2, length: 1 }),
    };
    match err.with_file_context("up.sql", "SELECT".to_string()) {
        DieselGuardError::ParseError { msg, src, span } => {
            assert_eq!(msg, "broken at position 5");
            let src = src.unwrap();
            assert_eq!((src.name.as_str(), src.source.as_str()), ("up.sql", "SELECT"));
            assert_eq!(span, Some(SourceSpan { offset: 2, length: 1 }));
        }
        other => panic!("expected a parse error, got {other:?}"),
    }
}

#[test]
fn errors_have_messages() {
    assert_eq!(DieselGuardError::IoError("gone".to_string()).message(), "Failed to read file");
    assert_eq!(
        DieselGuardError::WalkDirError("loop".to_string()).message(),
        "Failed to traverse directory"
    );
    assert_eq!(DieselGuardError::parse_error("oops").message(), "Failed to parse SQL: oops");
    let config = ConfigError::InvalidFramework { framework: "rails".to_string() };
    assert_eq!(
        DieselGuardError::ConfigError(config).message(),
        "Invalid framework \"rails\". Expected \"diesel\" or \"sqlx\"."
    );
}

#[test]
fn config_errors_have_messages() {
    assert_eq!(
        ConfigError::InvalidCheckName { invalid_name: "X".to_string() }.message(),
        "Invalid check name: X"
    );
    assert_eq!(
        ConfigError::InvalidCustomCheck {
            check_name: "x".to_string(),
            reason: "because".to_string(),
        }
        .message(),
        "Invalid custom check x: because"
    );
    assert_eq!(ConfigError::InvalidTimestampFormat("t".to_string()).message(), "t");
    assert_eq!(
        ConfigError::CustomChecksTooLarge { message: "big".to_string() }.message(),
        "big"
    );
    assert_eq!(ConfigError::ConfigTooLarge { message: "long".to_string() }.message(), "long");
    assert_eq!(ConfigError::InvalidFile { message: "bad".to_string() }.message(), "bad");
}
