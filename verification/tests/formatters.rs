//! Output formats and what the command line decides.

use diesel_guard::cli::{exit_code, find_check, listing_config, path_kind, PathKind, DEFAULT_PATH};
use diesel_guard::config::Config;
use diesel_guard::formatters::json::text_or_else;
use diesel_guard::formatters::{
    encode_data, encode_property, format_file_violations, format_summary, total, CheckInfo,
    Formatter, GithubFormatter, JsonFormatter, TextFormatter,
};
use diesel_guard::paint::{render, Segment, Style};
use diesel_guard::violation::{Severity, Violation};
use diesel_guard::ViolationList;

fn violation(severity: Severity) -> Violation {
    Violation::new("DROP COLUMN", "Locks the table.", "Step one:\nStep two").with_severity(severity)
}

fn results(severities: &[Severity]) -> Vec<(String, ViolationList)> {
    severities
        .iter()
        .enumerate()
        .map(|(i, severity)| (format!("m{i}/up.sql"), vec![(i + 1, violation(*severity))]))
        .collect()
}

fn info(name: &str, script_path: Option<&str>, doc: Option<&str>) -> CheckInfo {
    CheckInfo {
        name: name.to_string(),
        script_path: script_path.map(|s| s.to_string()),
        doc: doc.map(|s| s.to_string()),
    }
}

#[test]
fn text_without_colors_is_laid_out_plainly() {
    colored::control::set_override(false);
    assert_eq!(
        format_file_violations("up.sql", &vec![(3, violation(Severity::Error))]),
        "❌ Unsafe migration detected in up.sql\n\n❌ DROP COLUMN  (line 3)\n\nProblem:\n  Locks the table.\n\nSafe alternative:\n  Step one:\n  Step two\n\n"
    );
    assert_eq!(
        format_file_violations("up.sql", &vec![(3, violation(Severity::Warning))]),
        "⚠️ Migration warnings in up.sql\n\n⚠️  DROP COLUMN  (line 3)\n\nProblem:\n  Locks the table.\n\nSafe alternative:\n  Step one:\n  Step two\n\n"
    );
}

#[test]
fn text_with_colors_is_painted() {
    colored::control::set_override(true);
    let painted = |style: Style| render(&vec![Segment::new("x", style)]);
    assert_eq!(painted(Style::Plain), "x");
    assert_eq!(painted(Style::Red), "\u{1b}[31mx\u{1b}[0m");
    assert_eq!(painted(Style::Yellow), "\u{1b}[33mx\u{1b}[0m");
    assert_eq!(painted(Style::RedBold), "\u{1b}[1;31mx\u{1b}[0m");
    assert_eq!(painted(Style::YellowBold), "\u{1b}[1;33mx\u{1b}[0m");
    assert_eq!(painted(Style::GreenBold), "\u{1b}[1;32mx\u{1b}[0m");
    assert_eq!(painted(Style::WhiteBold), "\u{1b}[1;37mx\u{1b}[0m");
    assert_eq!(painted(Style::Dimmed), "\u{1b}[2mx\u{1b}[0m");
    assert_eq!(
        render(&vec![Segment::new("a\u{1b}[0mb\u{1b}[0m", Style::Red)]),
        "\u{1b}[31ma\u{1b}[0m\u{1b}[31mb\u{1b}[0m\u{1b}[31m\u{1b}[0m"
    );
    assert_eq!(
        render(&vec![Segment::new("\u{1b}[1mé", Style::Dimmed)]),
        "\u{1b}[2m\u{1b}[1mé\u{1b}[0m"
    );
}

#[test]
fn summary_counts_errors_and_warnings() {
    colored::control::set_override(false);
    assert_eq!(format_summary(0, 0), "✅ No unsafe migrations detected!");
    assert_eq!(format_summary(0, 2), "\n⚠️  2 migration warning(s) detected (not blocking)");
    assert_eq!(format_summary(3, 0), "\n❌ 3 unsafe migration(s) detected");
    assert_eq!(format_summary(3, 2), "\n❌ 3 unsafe migration(s) and 2 warning(s) detected");
}

#[test]
fn text_report_ends_with_the_summary() {
    colored::control::set_override(false);
    assert_eq!(
        TextFormatter.format_results(&vec![]),
        "✅ No unsafe migrations detected!\n"
    );
    let found = results(&[Severity::Error, Severity::Warning]);
    let text = TextFormatter.format_results(&found);
    let expected = format!(
        "{}{}{}\n",
        format_file_violations("m0/up.sql", &found[0].1),
        format_file_violations("m1/up.sql", &found[1].1),
        format_summary(1, 1)
    );
    assert_eq!(text, expected);
}

#[test]
fn github_commands_are_encoded() {
    let violation = Violation::new("OP", "100% sure:\nyes, really", "");
    let found = vec![("a,b:c.sql".to_string(), vec![(7, violation)])];
    assert_eq!(
        GithubFormatter.format_results(&found),
        "::error file=a%2Cb%3Ac.sql,line=7::OP: 100%25 sure:%0Ayes, really\n"
    );
    assert_eq!(
        GithubFormatter.format_results(&results(&[Severity::Warning])),
        "::warning file=m0/up.sql,line=1::DROP COLUMN: Locks the table.\n"
    );
    assert_eq!(GithubFormatter.format_results(&vec![]), "");
}

#[test]
fn properties_escape_more_than_data() {
    assert_eq!(encode_property("a%b\r\n:,"), "a%25b%0D%0A%3A%2C");
    assert_eq!(encode_data("a%b\r\n:,"), "a%25b%0D%0A:,");
}

#[test]
fn checks_are_listed_in_columns() {
    let config = Config {
        warn_checks: vec!["B".to_string()],
        disable_checks: vec!["A".to_string()],
        ..Config::default()
    };
    let checks = vec![info("A", None, None), info("B", Some("b.rhai"), None)];
    let expected = format!(
        "{:<40} {:<10} {:<10} ENABLED\n{:<40} {:<10} {:<10} no\n{:<40} {:<10} {:<10} yes\n",
        "NAME", "TYPE", "SEVERITY", "A", "builtin", "error", "B", "custom", "warning"
    );
    assert_eq!(TextFormatter.format_checks(&checks, &config), expected);
    assert_eq!(GithubFormatter.format_checks(&checks, &config), expected);
}

#[test]
fn explanations_fall_back_to_a_hint() {
    let config = Config::default();
    assert_eq!(
        TextFormatter.format_explain(&info("A", None, Some("What it does.")), &config),
        "A (builtin | error | enabled)\n\nWhat it does."
    );
    assert_eq!(
        TextFormatter.format_explain(&info("A", None, None), &config),
        "A (builtin | error | enabled)\n\nNo documentation available.\n"
    );
    assert_eq!(
        GithubFormatter.format_explain(&info("a", Some("checks/a.rhai"), None), &config),
        "a (custom | error | enabled)\n\nNo description available. Add fn describe() to the script:\n  checks/a.rhai"
    );
}

#[test]
fn totals_are_by_severity() {
    let found = results(&[Severity::Error, Severity::Warning, Severity::Error]);
    assert_eq!(total(&found, Severity::Error), 2);
    assert_eq!(total(&found, Severity::Warning), 1);
}

#[test]
fn warnings_do_not_affect_the_exit_code() {
    assert_eq!(exit_code(&vec![]), 0);
    assert_eq!(exit_code(&results(&[Severity::Warning])), 0);
    assert_eq!(exit_code(&results(&[Severity::Warning, Severity::Error])), 1);
}

#[test]
fn dash_is_the_standard_input() {
    assert_eq!(path_kind("-", true), PathKind::Stdin);
    assert_eq!(path_kind(DEFAULT_PATH, true), PathKind::Directory);
    assert_eq!(path_kind("up.sql", false), PathKind::File);
}

#[test]
fn all_checks_are_listed_whatever_is_enabled() {
    let config = Config {
        disable_checks: vec!["A".to_string()],
        enable_checks: vec!["B".to_string()],
        warn_checks: vec!["C".to_string()],
        postgres_version: Some(14),
        ..Config::default()
    };
    let listing = listing_config(&config);
    assert!(listing.disable_checks.is_empty());
    assert!(listing.enable_checks.is_empty());
    assert_eq!(listing.warn_checks, vec!["C"]);
    assert_eq!(listing.postgres_version, Some(14));
    assert!(!listing.same_as(&config));
    assert!(listing.same_as(&listing_config(&listing)));
}

#[test]
fn checks_are_found_by_name() {
    let checks = vec![info("A", None, Some("first")), info("B", None, None), info("A", None, None)];
    assert_eq!(find_check(&checks, "A").unwrap().doc.as_deref(), Some("first"));
    assert!(find_check(&checks, "C").is_none());
}

#[test]
fn json_results_hold_every_violation() {
    assert_eq!(JsonFormatter.format_results(&vec![]), "[]");
    let mut found = violation(Severity::Warning).with_check_name("DropColumnCheck");
    found.problem = "Says \"no\".".to_string();
    let results = vec![("a/up.sql".to_string(), vec![(7, found)]), ("b/up.sql".to_string(), vec![])];
    assert_eq!(
        JsonFormatter.format_results(&results),
        r#"[
  {
    "file": "a/up.sql",
    "violations": [
      {
        "check_name": "DropColumnCheck",
        "line": 7,
        "operation": "DROP COLUMN",
        "problem": "Says \"no\".",
        "safe_alternative": "Step one:\nStep two",
        "severity": "warning"
      }
    ]
  },
  {
    "file": "b/up.sql",
    "violations": []
  }
]"#
    );
}

#[test]
fn json_checks_tell_type_severity_and_state() {
    let config = Config {
        warn_checks: vec!["a".to_string()],
        disable_checks: vec!["B".to_string()],
        ..Config::default()
    };
    let checks = vec![info("a", Some("a.rhai"), Some("doc")), info("B", None, None)];
    assert_eq!(
        JsonFormatter.format_checks(&checks, &config),
        r#"[
  {
    "enabled": true,
    "name": "a",
    "script_path": "a.rhai",
    "severity": "warning",
    "type": "custom"
  },
  {
    "enabled": false,
    "name": "B",
    "severity": "error",
    "type": "builtin"
  }
]"#
    );
}

#[test]
fn json_explanations_hold_the_documentation() {
    let config = Config::default();
    assert_eq!(
        JsonFormatter.format_explain(&info("a", Some("a.rhai"), Some("doc")), &config),
        r#"{
  "doc": "doc",
  "enabled": true,
  "name": "a",
  "script_path": "a.rhai",
  "severity": "error",
  "type": "custom"
}"#
    );
    assert_eq!(
        JsonFormatter.format_explain(&info("B", None, None), &config),
        r#"{
  "doc": null,
  "enabled": true,
  "name": "B",
  "severity": "error",
  "type": "builtin"
}"#
    );
}

#[test]
fn missing_text_is_replaced() {
    assert_eq!(text_or_else(Some("x".to_string()), "[]"), "x");
    assert_eq!(text_or_else(None, "[]"), "[]");
}
