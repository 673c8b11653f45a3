//! Directives in SQL comments.

use diesel_guard::error::DieselGuardError;
use diesel_guard::parser::comment_parser::{
    find_blocks, BlockError, CommentParser, IgnoreRange, LineKind,
};
use diesel_guard::parser::{non_comment_token_starts, parse_with_metadata, Statements, Token};

#[test]
fn test_parse_simple_block() {
    let sql = r"
-- safety-assured:start
ALTER TABLE users DROP COLUMN email;
-- safety-assured:end
    ";

    let ranges = CommentParser::parse_ignore_ranges(sql).unwrap();
    assert_eq!(ranges.len(), 1);
    assert_eq!(ranges[0].start_line, 2);
    assert_eq!(ranges[0].end_line, 4);
}

#[test]
fn test_multiple_blocks() {
    let sql = r"
-- safety-assured:start
ALTER TABLE users DROP COLUMN email;
-- safety-assured:end

ALTER TABLE posts ADD COLUMN body TEXT;

-- safety-assured:start
DROP INDEX old_index;
-- safety-assured:end
    ";

    let ranges = CommentParser::parse_ignore_ranges(sql).unwrap();
    assert_eq!(ranges.len(), 2);
    assert_eq!(ranges[0].start_line, 2);
    assert_eq!(ranges[0].end_line, 4);
    assert_eq!(ranges[1].start_line, 8);
    assert_eq!(ranges[1].end_line, 10);
}

#[test]
fn test_case_insensitive() {
    let sql = r"
-- SAFETY-ASSURED:START
ALTER TABLE users DROP COLUMN email;
-- safety-ASSURED:end
    ";

    let ranges = CommentParser::parse_ignore_ranges(sql).unwrap();
    assert_eq!(ranges.len(), 1);
}

#[test]
fn test_unmatched_end() {
    let sql = r"
ALTER TABLE users DROP COLUMN email;
-- safety-assured:end
    ";

    let err = CommentParser::parse_ignore_ranges(sql).unwrap_err();
    assert_eq!(
        err.message(),
        "Failed to parse SQL: Unmatched 'safety-assured:end' at line 3. Each 'safety-assured:end' must have a matching 'safety-assured:start' before it."
    );
}

#[test]
fn test_unclosed_start() {
    let sql = r"
-- safety-assured:start
ALTER TABLE users DROP COLUMN email;
    ";

    let err = CommentParser::parse_ignore_ranges(sql).unwrap_err();
    assert_eq!(
        err.message(),
        "Failed to parse SQL: Unclosed 'safety-assured:start' at line 2. Did you forget to add 'safety-assured:end'?"
    );
}

#[test]
fn test_nested_blocks_error() {
    let sql = r"
-- safety-assured:start
ALTER TABLE users DROP COLUMN email;
-- safety-assured:start
ALTER TABLE posts DROP COLUMN body;
-- safety-assured:end
-- safety-assured:end
    ";

    // Nested blocks should be rejected with clear error
    let err = CommentParser::parse_ignore_ranges(sql).unwrap_err();
    assert_eq!(
        err.message(),
        "Failed to parse SQL: Nested 'safety-assured:start' at line 4. Nested blocks are not supported. Close the previous block before starting a new one."
    );
}

#[test]
fn test_empty_block() {
    let sql = r"
-- safety-assured:start
-- safety-assured:end
    ";

    let ranges = CommentParser::parse_ignore_ranges(sql).unwrap();
    assert_eq!(ranges.len(), 1);
    assert_eq!(ranges[0].start_line, 2);
    assert_eq!(ranges[0].end_line, 3);
}

#[test]
fn test_block_with_comments() {
    let sql = r"
-- safety-assured:start
-- This column was deprecated
ALTER TABLE users DROP COLUMN email;
-- All references removed
-- safety-assured:end
    ";

    let ranges = CommentParser::parse_ignore_ranges(sql).unwrap();
    assert_eq!(ranges.len(), 1);
    assert_eq!(ranges[0].start_line, 2);
    assert_eq!(ranges[0].end_line, 6);
}

#[test]
fn test_no_blocks() {
    let sql = r"
ALTER TABLE users DROP COLUMN email;
ALTER TABLE posts ADD COLUMN body TEXT;
    ";

    let ranges = CommentParser::parse_ignore_ranges(sql).unwrap();
    assert_eq!(ranges.len(), 0);
}

#[test]
fn test_parse_disabled_checks_directive() {
    let sql = r"
-- diesel-guard:disable AddColumnCheck, DropColumnCheck
ALTER TABLE users ADD COLUMN admin BOOLEAN DEFAULT FALSE;
    ";

    let disabled = CommentParser::parse_disabled_checks(sql);
    assert_eq!(disabled, vec!["AddColumnCheck", "DropColumnCheck"]);
}

#[test]
fn test_parse_disabled_checks_directive_is_case_insensitive() {
    let sql = r"
-- DIESEL-GUARD:DISABLE AddColumnCheck
ALTER TABLE users ADD COLUMN admin BOOLEAN DEFAULT FALSE;
    ";

    let disabled = CommentParser::parse_disabled_checks(sql);
    assert_eq!(disabled, vec!["AddColumnCheck"]);
}

#[test]
fn test_parse_multiple_disabled_checks_directives() {
    let sql = r"
-- diesel-guard:disable AddColumnCheck
-- diesel-guard:disable DropColumnCheck, ReindexCheck
ALTER TABLE users ADD COLUMN admin BOOLEAN DEFAULT FALSE;
    ";

    let disabled = CommentParser::parse_disabled_checks(sql);
    assert_eq!(
        disabled,
        vec!["AddColumnCheck", "DropColumnCheck", "ReindexCheck"]
    );
}

#[test]
fn test_directive_variations() {
    // Test different whitespace and formatting
    assert!(CommentParser::is_start_directive("-- safety-assured:start"));
    assert!(CommentParser::is_start_directive("--safety-assured:start"));
    assert!(CommentParser::is_start_directive(
        "  -- safety-assured:start  "
    ));
    assert!(CommentParser::is_start_directive("-- SAFETY-ASSURED:START"));

    // Not start directives
    assert!(!CommentParser::is_start_directive("-- safety-assured:end"));
    assert!(!CommentParser::is_start_directive("ALTER TABLE users"));
    assert!(!CommentParser::is_start_directive("-- some comment"));
}

#[test]
fn test_directive_requires_exact_match() {
    // These should NOT match - no extra characters allowed
    assert!(!CommentParser::is_start_directive(
        "-- safety-assured:start111"
    ));
    assert!(!CommentParser::is_start_directive(
        "-- safety-assured:startx"
    ));
    assert!(!CommentParser::is_start_directive(
        "-- xsafety-assured:start"
    ));
    assert!(!CommentParser::is_start_directive(
        "-- safety-assured:start extra text"
    ));

    assert!(!CommentParser::is_end_directive("-- safety-assured:end222"));
    assert!(!CommentParser::is_end_directive("-- safety-assured:endx"));
    assert!(!CommentParser::is_end_directive(
        "-- safety-assured:end extra text"
    ));

    // Invalid directive should cause an error (unmatched end)
    let sql = r"
-- safety-assured:start111
ALTER TABLE users DROP COLUMN email;
-- safety-assured:end
    ";

    let err = CommentParser::parse_ignore_ranges(sql)
        .expect_err("Invalid start directive should not be recognized");
    assert_eq!(
        err.message(),
        "Failed to parse SQL: Unmatched 'safety-assured:end' at line 4. Each 'safety-assured:end' must have a matching 'safety-assured:start' before it."
    );
}

#[test]
fn test_parse_disabled_checks_returns_none_for_empty_list() {
    // After splitting "," by comma and filtering empty strings, the list is empty → None.
    let result = CommentParser::parse_disabled_checks_line("-- diesel-guard:disable ,");
    assert!(result.is_none());
}

#[test]
fn ranges_are_displayed_by_their_lines() {
    assert_eq!(IgnoreRange { start_line: 2, end_line: 14 }.display(), "lines 2-14");
}

#[test]
fn end_directive_may_be_surrounded_by_white_space() {
    assert!(CommentParser::is_end_directive("  --  safety-assured:end\t"));
    let ranges =
        CommentParser::parse_ignore_ranges("\t-- safety-assured:start \r\n--safety-assured:end").unwrap();
    assert_eq!(ranges, vec![IgnoreRange { start_line: 1, end_line: 2 }]);
}

#[test]
fn names_in_a_disable_directive_are_trimmed() {
    let names = CommentParser::parse_disabled_checks_line("--diesel-guard:disable  A ,, B,C ");
    assert_eq!(names.unwrap(), vec!["A", "B", "C"]);
    assert!(CommentParser::parse_disabled_checks_line("-- diesel-guard:disable").is_none());
    assert!(CommentParser::parse_disabled_checks_line("-- disable A").is_none());
}

#[test]
fn blocks_pair_each_start_with_the_next_end() {
    let kinds = vec![
        LineKind::Start,
        LineKind::Other,
        LineKind::End,
        LineKind::Other,
        LineKind::Start,
        LineKind::End,
    ];
    assert_eq!(
        find_blocks(&kinds).unwrap(),
        vec![
            IgnoreRange { start_line: 1, end_line: 3 },
            IgnoreRange { start_line: 5, end_line: 6 },
        ]
    );
}

#[test]
fn unbalanced_directives_name_the_line_at_fault() {
    assert_eq!(
        find_blocks(&vec![LineKind::Other, LineKind::End]),
        Err(BlockError::Unmatched(2))
    );
    assert_eq!(
        find_blocks(&vec![LineKind::Start, LineKind::Other]),
        Err(BlockError::Unclosed(1))
    );
    assert_eq!(
        find_blocks(&vec![LineKind::Start, LineKind::Start, LineKind::End]),
        Err(BlockError::Nested(2))
    );
}

#[test]
fn parsed_sql_holds_statements_and_directives() {
    let sql = "-- diesel-guard:disable DropTableCheck\n-- safety-assured:start\n-- safety-assured:end";
    let statements = Statements { stmts: vec![], token_starts: vec![3, 5] };
    let parsed = parse_with_metadata(sql, Ok(statements)).unwrap();
    assert_eq!(parsed.sql, sql);
    assert_eq!(parsed.token_starts, vec![3, 5]);
    assert_eq!(parsed.disabled_checks, vec!["DropTableCheck"]);
    assert_eq!(parsed.ignore_ranges, vec![IgnoreRange { start_line: 2, end_line: 3 }]);
}

#[test]
fn parse_errors_come_before_errors_of_directives() {
    let err = parse_with_metadata(
        "-- safety-assured:start",
        Err(DieselGuardError::parse_error("broken")),
    )
    .unwrap_err();
    assert_eq!(err.message(), "Failed to parse SQL: broken");
}

#[test]
fn comments_are_no_statement_tokens() {
    let token = |start: i32, is_comment: bool| Token { start, is_comment };
    let tokens = vec![token(0, true), token(12, false), token(20, true), token(31, false)];
    assert_eq!(non_comment_token_starts(&tokens), vec![12, 31]);
    assert!(non_comment_token_starts(&vec![]).is_empty());
    assert_eq!(non_comment_token_starts(&vec![token(-1, false)]), vec![0]);
}

#[test]
fn lines_before_a_text_move_its_blocks() {
    let sql = "-- safety-assured:start\nDROP TABLE a;\n-- safety-assured:end\n";
    let ranges = CommentParser::parse_ignore_ranges(sql).unwrap();
    let moved = CommentParser::parse_ignore_ranges(&format!("SELECT 1;\r\n\n{sql}")).unwrap();
    assert_eq!((ranges[0].start_line, ranges[0].end_line), (1, 3));
    assert_eq!((moved[0].start_line, moved[0].end_line), (3, 5));
    assert_eq!(moved.len(), 1);
    let err = CommentParser::parse_ignore_ranges("\n\n-- safety-assured:end").unwrap_err();
    assert!(err.message().contains("at line 3"));
}

#[test]
fn joined_texts_disable_in_turn() {
    let texts = [
        "",
        "\n",
        "  -- diesel-guard:disable A, B  ",
        "-- diesel-guard:disable A\r",
        "SELECT 1;\n-- diesel-guard:disable B\r\n",
        "-- diesel-guard:disable   ",
    ];
    for a in texts {
        for b in texts {
            let mut expected = CommentParser::parse_disabled_checks(a);
            expected.extend(CommentParser::parse_disabled_checks(b));
            assert_eq!(CommentParser::parse_disabled_checks(&format!("{a}\n{b}")), expected);
        }
    }
    assert_eq!(CommentParser::parse_disabled_checks(texts[2]), vec!["A", "B"]);
    assert_eq!(CommentParser::parse_disabled_checks(texts[3]), vec!["A"]);
}
