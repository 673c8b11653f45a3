//! Output formats.

pub mod json;

use crate::checks::registry::list_views;
use crate::config::{lists, Config};
use crate::paint::{is_painting, render, segment_views, styled, Segment, SegmentView, Style};
use crate::safety_checker::result_views;
use crate::text::laws::{law_holes_are_filled, law_plain_templates_stay};
use crate::text::{
    decimal, decimal_text, fill, fill_template, lines, split_lines, string_views, to_chars, views,
};
use crate::violation::{Severity, Violation, ViolationView};
use crate::ViolationList;
use vstd::prelude::*;

verus! {

/// What is listed of a check.
#[derive(Debug, Clone)]
pub struct CheckInfo {
    pub name: String,
    /// The script of a custom check.
    pub script_path: Option<String>,
    /// The documentation of the check, or the description that its script gives.
    pub doc: Option<String>,
}

/// An output format.
pub trait Formatter {
    fn format_results(&self, results: &Vec<(String, ViolationList)>) -> String;

    fn format_checks(&self, checks: &Vec<CheckInfo>, config: &Config) -> String;

    fn format_explain(&self, check: &CheckInfo, config: &Config) -> String;
}

/// Text for a terminal.
pub struct TextFormatter;

/// Workflow commands for GitHub Actions.
pub struct GithubFormatter;

/// JSON for other programs.
pub struct JsonFormatter;

// ---------------------------------------------------------------------------
// Results as text
// ---------------------------------------------------------------------------

/// The message when nothing was found.
pub const NOTHING_FOUND: &'static str = "✅ No unsafe migrations detected!";

/// Whether a violation is an error.
pub open spec fn is_error(entry: (usize, ViolationView)) -> bool {
    entry.1.severity == Severity::Error
}

/// Whether there is an error among some violations.
pub open spec fn any_error(violations: Seq<(usize, ViolationView)>) -> bool {
    exists|i: int| 0 <= i < violations.len() && is_error(#[trigger] violations[i])
}

fn has_errors(violations: &ViolationList) -> (r: bool)
    ensures
        r == any_error(list_views(violations@)),
{
    let ghost all = list_views(violations@);
    let mut i: usize = 0;
    while i < violations.len()
        invariant
            i <= violations.len(),
            all == list_views(violations@),
            forall|j: int| 0 <= j < i ==> !is_error(#[trigger] all[j]),
        decreases violations.len() - i,
    {
        if violations[i].1.severity == Severity::Error {
            assert(is_error(all[i as int]));
            return true;
        }
        i += 1;
    }
    false
}

/// The lines of a text, each indented by two spaces and ended.
pub open spec fn indented(text_lines: Seq<Seq<char>>) -> Seq<char>
    decreases text_lines.len(),
{
    if text_lines.len() == 0 {
        Seq::empty()
    } else {
        indented(text_lines.drop_last()) + "  "@ + text_lines.last() + "\n"@
    }
}

fn indent(text: &str) -> (r: String)
    ensures
        r@ == indented(lines(text@)),
{
    let parts = split_lines(text);
    let ghost all = string_views(parts@);
    let mut r = String::new();
    let mut i: usize = 0;
    assert(r@ =~= indented(all.take(0)));
    while i < parts.len()
        invariant
            i <= parts.len(),
            all == string_views(parts@),
            r@ == indented(all.take(i as int)),
        decreases parts.len() - i,
    {
        r.append("  ");
        r.append(parts[i].as_str());
        r.append("\n");
        proof {
            assert(all.take(i + 1).drop_last() =~= all.take(i as int));
            assert(all.take(i + 1).last() == parts@[i as int]@);
        }
        i += 1;
    }
    assert(all.take(all.len() as int) =~= all);
    r
}

/// The line of a violation.
pub const LINE_TEXT: &'static str = "(line {0})";

/// The problem of a violation.
pub const PROBLEM_TEXT: &'static str = "\n  {0}\n\n";

/// The layout of the heading over the violations of a file.
pub open spec fn heading(path: Seq<char>, errors: bool) -> Seq<SegmentView> {
    if errors {
        seq![
            styled("❌ "@, Style::Plain),
            styled("Unsafe migration detected in"@, Style::RedBold),
            styled(" "@, Style::Plain),
            styled(path, Style::Yellow),
            styled("\n\n"@, Style::Plain),
        ]
    } else {
        seq![
            styled("⚠️ "@, Style::Plain),
            styled("Migration warnings in"@, Style::YellowBold),
            styled(" "@, Style::Plain),
            styled(path, Style::Yellow),
            styled("\n\n"@, Style::Plain),
        ]
    }
}

/// The layout of a violation.
pub open spec fn violation_segments() -> spec_fn((usize, ViolationView)) -> Seq<SegmentView> {
    |entry: (usize, ViolationView)|
        seq![
            styled(
                match entry.1.severity {
                    Severity::Error => "❌ "@,
                    Severity::Warning => "⚠️  "@,
                },
                Style::Plain,
            ),
            styled(
                entry.1.operation,
                match entry.1.severity {
                    Severity::Error => Style::RedBold,
                    Severity::Warning => Style::YellowBold,
                },
            ),
            styled("  "@, Style::Plain),
            styled(fill(LINE_TEXT@, seq![decimal(entry.0 as nat)]), Style::Dimmed),
            styled("\n\n"@, Style::Plain),
            styled("Problem:"@, Style::WhiteBold),
            styled(fill(PROBLEM_TEXT@, seq![entry.1.problem]), Style::Plain),
            styled("Safe alternative:"@, Style::GreenBold),
            styled("\n"@, Style::Plain),
            styled(indented(lines(entry.1.safe_alternative)), Style::Plain),
            styled("\n"@, Style::Plain),
        ]
}

/// The layout of the violations of a file.
pub open spec fn file_segments(path: Seq<char>, violations: Seq<(usize, ViolationView)>) -> Seq<
    SegmentView,
> {
    heading(path, any_error(violations)) + violations.flat_map(violation_segments())
}

fn layout_violation(line: usize, violation: &Violation) -> (r: Vec<Segment>)
    ensures
        segment_views(r@) == violation_segments()((line, violation@)),
{
    let icon = match violation.severity {
        Severity::Error => "❌ ",
        Severity::Warning => "⚠️  ",
    };
    let style = match violation.severity {
        Severity::Error => Style::RedBold,
        Severity::Warning => Style::YellowBold,
    };
    let number = decimal_text(line as u64);
    let line_args: Vec<&str> = vec![number.as_str()];
    assert(views(line_args@) =~= seq![number@]);
    let line_text = fill_template(LINE_TEXT, &line_args);
    let problem_args: Vec<&str> = vec![violation.problem.as_str()];
    assert(views(problem_args@) =~= seq![violation.problem@]);
    let problem_text = fill_template(PROBLEM_TEXT, &problem_args);
    let advice = indent(violation.safe_alternative.as_str());
    let r: Vec<Segment> = vec![
        Segment::new(icon, Style::Plain),
        Segment::new(violation.operation.as_str(), style),
        Segment::new("  ", Style::Plain),
        Segment::new(line_text.as_str(), Style::Dimmed),
        Segment::new("\n\n", Style::Plain),
        Segment::new("Problem:", Style::WhiteBold),
        Segment::new(problem_text.as_str(), Style::Plain),
        Segment::new("Safe alternative:", Style::GreenBold),
        Segment::new("\n", Style::Plain),
        Segment::new(advice.as_str(), Style::Plain),
        Segment::new("\n", Style::Plain),
    ];
    assert(segment_views(r@) =~= violation_segments()((line, violation@)));
    r
}

fn layout_heading(path: &str, errors: bool) -> (r: Vec<Segment>)
    ensures
        segment_views(r@) == heading(path@, errors),
{
    let r: Vec<Segment> = if errors {
        vec![
            Segment::new("❌ ", Style::Plain),
            Segment::new("Unsafe migration detected in", Style::RedBold),
            Segment::new(" ", Style::Plain),
            Segment::new(path, Style::Yellow),
            Segment::new("\n\n", Style::Plain),
        ]
    } else {
        vec![
            Segment::new("⚠️ ", Style::Plain),
            Segment::new("Migration warnings in", Style::YellowBold),
            Segment::new(" ", Style::Plain),
            Segment::new(path, Style::Yellow),
            Segment::new("\n\n", Style::Plain),
        ]
    };
    assert(segment_views(r@) =~= heading(path@, errors));
    r
}

/// Lays the violations of a file out, as `file_segments` says.
pub fn layout_file_violations(file_path: &str, violations: &ViolationList) -> (r: Vec<Segment>)
    ensures
        segment_views(r@) == file_segments(file_path@, list_views(violations@)),
{
    let ghost all = list_views(violations@);
    let ghost f = violation_segments();
    let mut r = layout_heading(file_path, has_errors(violations));
    let ghost top = heading(file_path@, any_error(all));
    let mut i: usize = 0;
    assert(all.take(0).flat_map(f) =~= Seq::<SegmentView>::empty());
    assert(segment_views(r@) =~= top + all.take(0).flat_map(f));
    while i < violations.len()
        invariant
            i <= violations.len(),
            all == list_views(violations@),
            f == violation_segments(),
            segment_views(r@) == top + all.take(i as int).flat_map(f),
        decreases violations.len() - i,
    {
        let ghost before = r@;
        let mut more = layout_violation(violations[i].0, &violations[i].1);
        let ghost added = more@;
        r.append(&mut more);
        proof {
            assert(all[i as int] == (violations@[i as int].0, violations@[i as int].1@));
            all.lemma_flat_map_take_append(f, i as int);
            assert(segment_views(r@) =~= segment_views(before) + segment_views(added));
            assert(top + (all.take(i as int).flat_map(f) + f(all[i as int])) =~= top + all.take(
                i as int,
            ).flat_map(f) + f(all[i as int]));
        }
        i += 1;
    }
    assert(all.take(all.len() as int) =~= all);
    r
}

/// The violations of a file as text for a terminal.
pub fn format_file_violations(file_path: &str, violations: &ViolationList) -> (r: String)
    ensures
        is_painting(file_segments(file_path@, list_views(violations@)), r@),
{
    render(&layout_file_violations(file_path, violations))
}

/// The summary when there are only warnings.
pub const WARNINGS_TEXT: &'static str = " migration warning(s) detected (not blocking)";

/// The layout of the summary.
pub open spec fn summary(errors: usize, warnings: usize) -> Seq<SegmentView> {
    if errors == 0 && warnings == 0 {
        seq![styled(NOTHING_FOUND@, Style::GreenBold)]
    } else if errors == 0 {
        seq![
            styled("\n⚠️  "@, Style::Plain),
            styled(decimal(warnings as nat), Style::YellowBold),
            styled(WARNINGS_TEXT@, Style::Plain),
        ]
    } else if warnings == 0 {
        seq![
            styled("\n"@, Style::Plain),
            styled("❌"@, Style::Red),
            styled(" "@, Style::Plain),
            styled(decimal(errors as nat), Style::RedBold),
            styled(" unsafe migration(s) detected"@, Style::Plain),
        ]
    } else {
        seq![
            styled("\n"@, Style::Plain),
            styled("❌"@, Style::Red),
            styled(" "@, Style::Plain),
            styled(decimal(errors as nat), Style::RedBold),
            styled(" unsafe migration(s) and "@, Style::Plain),
            styled(decimal(warnings as nat), Style::YellowBold),
            styled(" warning(s) detected"@, Style::Plain),
        ]
    }
}

/// Lays the summary out, as `summary` says.
pub fn layout_summary(total_errors: usize, total_warnings: usize) -> (r: Vec<Segment>)
    ensures
        segment_views(r@) == summary(total_errors, total_warnings),
{
    let errors = decimal_text(total_errors as u64);
    let warnings = decimal_text(total_warnings as u64);
    let r: Vec<Segment> = if total_errors == 0 && total_warnings == 0 {
        vec![Segment::new(NOTHING_FOUND, Style::GreenBold)]
    } else if total_errors == 0 {
        vec![
            Segment::new("\n⚠️  ", Style::Plain),
            Segment::new(warnings.as_str(), Style::YellowBold),
            Segment::new(WARNINGS_TEXT, Style::Plain),
        ]
    } else if total_warnings == 0 {
        vec![
            Segment::new("\n", Style::Plain),
            Segment::new("❌", Style::Red),
            Segment::new(" ", Style::Plain),
            Segment::new(errors.as_str(), Style::RedBold),
            Segment::new(" unsafe migration(s) detected", Style::Plain),
        ]
    } else {
        vec![
            Segment::new("\n", Style::Plain),
            Segment::new("❌", Style::Red),
            Segment::new(" ", Style::Plain),
            Segment::new(errors.as_str(), Style::RedBold),
            Segment::new(" unsafe migration(s) and ", Style::Plain),
            Segment::new(warnings.as_str(), Style::YellowBold),
            Segment::new(" warning(s) detected", Style::Plain),
        ]
    };
    assert(segment_views(r@) =~= summary(total_errors, total_warnings));
    r
}

/// The summary as text for a terminal.
pub fn format_summary(total_errors: usize, total_warnings: usize) -> (r: String)
    ensures
        is_painting(summary(total_errors, total_warnings), r@),
{
    render(&layout_summary(total_errors, total_warnings))
}

/// The number of violations of a severity.
pub open spec fn count_in(violations: Seq<(usize, ViolationView)>, severity: Severity) -> nat
    decreases violations.len(),
{
    if violations.len() == 0 {
        0
    } else {
        count_in(violations.drop_last(), severity) + (if violations.last().1.severity == severity {
            1nat
        } else {
            0nat
        })
    }
}

/// The number of violations of a severity in all files.
pub open spec fn count_all(
    results: Seq<(Seq<char>, Seq<(usize, ViolationView)>)>,
    severity: Severity,
) -> nat
    decreases results.len(),
{
    if results.len() == 0 {
        0
    } else {
        count_all(results.drop_last(), severity) + count_in(results.last().1, severity)
    }
}

/// A count, or the largest number if it has none in a `usize`.
pub open spec fn capped(n: nat) -> usize {
    if n <= usize::MAX {
        n as usize
    } else {
        usize::MAX
    }
}

/// Counts the violations of a severity in all files.
pub fn total(results: &Vec<(String, ViolationList)>, severity: Severity) -> (r: usize)
    ensures
        r == capped(count_all(result_views(results@), severity)),
{
    let ghost all = result_views(results@);
    let mut n: usize = 0;
    let mut i: usize = 0;
    assert(all.take(0) =~= Seq::<(Seq<char>, Seq<(usize, ViolationView)>)>::empty());
    while i < results.len()
        invariant
            i <= results.len(),
            all == result_views(results@),
            n == capped(count_all(all.take(i as int), severity)),
        decreases results.len() - i,
    {
        let violations = &results[i].1;
        let ghost list = list_views(violations@);
        let ghost before = count_all(all.take(i as int), severity);
        proof {
            assert(all.take(i + 1).drop_last() =~= all.take(i as int));
            assert(all.take(i + 1).last().1 == list);
            assert(list.take(0) =~= Seq::<(usize, ViolationView)>::empty());
        }
        let mut k: usize = 0;
        while k < violations.len()
            invariant
                k <= violations.len(),
                list == list_views(violations@),
                n == capped(before + count_in(list.take(k as int), severity)),
            decreases violations.len() - k,
        {
            proof {
                assert(list.take(k + 1).drop_last() =~= list.take(k as int));
                assert(list.take(k + 1).last() == (
                    violations@[k as int].0,
                    violations@[k as int].1@,
                ));
            }
            if violations[k].1.severity == severity && n < usize::MAX {
                n += 1;
            }
            k += 1;
        }
        assert(list.take(list.len() as int) =~= list);
        i += 1;
    }
    assert(all.take(all.len() as int) =~= all);
    n
}

/// The layout of a file with its violations.
pub open spec fn result_segments() -> spec_fn(
    (Seq<char>, Seq<(usize, ViolationView)>),
) -> Seq<SegmentView> {
    |entry: (Seq<char>, Seq<(usize, ViolationView)>)| file_segments(entry.0, entry.1)
}

/// The layout of all results.
pub open spec fn report(results: Seq<(Seq<char>, Seq<(usize, ViolationView)>)>) -> Seq<SegmentView> {
    if results.len() == 0 {
        seq![styled(NOTHING_FOUND@, Style::GreenBold), styled("\n"@, Style::Plain)]
    } else {
        results.flat_map(result_segments()) + summary(
            capped(count_all(results, Severity::Error)),
            capped(count_all(results, Severity::Warning)),
        ) + seq![styled("\n"@, Style::Plain)]
    }
}

/// Lays all results out, as `report` says.
pub fn layout_results(results: &Vec<(String, ViolationList)>) -> (r: Vec<Segment>)
    ensures
        segment_views(r@) == report(result_views(results@)),
{
    let ghost all = result_views(results@);
    let ghost f = result_segments();
    if results.len() == 0 {
        let r: Vec<Segment> = vec![
            Segment::new(NOTHING_FOUND, Style::GreenBold),
            Segment::new("\n", Style::Plain),
        ];
        assert(segment_views(r@) =~= report(all));
        return r;
    }
    let mut r: Vec<Segment> = Vec::new();
    let mut i: usize = 0;
    assert(segment_views(r@) =~= all.take(0).flat_map(f));
    while i < results.len()
        invariant
            i <= results.len(),
            all == result_views(results@),
            f == result_segments(),
            segment_views(r@) == all.take(i as int).flat_map(f),
        decreases results.len() - i,
    {
        let ghost before = r@;
        let mut more = layout_file_violations(results[i].0.as_str(), &results[i].1);
        let ghost added = more@;
        r.append(&mut more);
        proof {
            assert(all[i as int] == (results@[i as int].0@, list_views(results@[i as int].1@)));
            all.lemma_flat_map_take_append(f, i as int);
            assert(segment_views(r@) =~= segment_views(before) + segment_views(added));
        }
        i += 1;
    }
    assert(all.take(all.len() as int) =~= all);
    let ghost before = r@;
    let mut tail = layout_summary(total(results, Severity::Error), total(results, Severity::Warning));
    let ghost added = tail@;
    r.append(&mut tail);
    r.push(Segment::new("\n", Style::Plain));
    assert(segment_views(r@) =~= segment_views(before) + segment_views(added) + seq![
        styled("\n"@, Style::Plain),
    ]);
    r
}

// ---------------------------------------------------------------------------
// Lists of checks
// ---------------------------------------------------------------------------

/// A text filled up with spaces to a width.
pub open spec fn padded(text: Seq<char>, width: nat) -> Seq<char>
    decreases width - text.len(),
{
    if text.len() >= width {
        text
    } else {
        padded(text.push(' '), width)
    }
}

fn pad(text: &str, width: usize) -> (r: String)
    ensures
        r@ == padded(text@, width as nat),
{
    let mut r = text.to_string();
    let mut len: usize = to_chars(text).len();
    while len < width
        invariant
            len == r@.len(),
            padded(r@, width as nat) == padded(text@, width as nat),
        decreases width - len,
    {
        r.push(' ');
        len += 1;
    }
    r
}

/// `custom` for a check with a script, `builtin` for another.
pub open spec fn kind_of(check: CheckInfo) -> Seq<char> {
    if check.script_path is Some {
        "custom"@
    } else {
        "builtin"@
    }
}

pub(crate) fn check_kind(check: &CheckInfo) -> (r: &'static str)
    ensures
        r@ == kind_of(*check),
{
    if check.script_path.is_some() {
        "custom"
    } else {
        "builtin"
    }
}

/// `warning` for a check that only warns, `error` for another.
pub open spec fn severity_name(config: Config, name: Seq<char>) -> Seq<char> {
    if lists(config.warn_checks@, name) {
        "warning"@
    } else {
        "error"@
    }
}

pub(crate) fn check_severity(config: &Config, name: &str) -> (r: &'static str)
    ensures
        r@ == severity_name(*config, name@),
{
    if config.is_check_warning(name) {
        "warning"
    } else {
        "error"
    }
}

/// A row of the list of checks.
pub const ROW_TEXT: &'static str = "{0} {1} {2} {3}\n";

/// A row of the list of checks: its first three fields are 40, 10 and 10 characters wide.
pub open spec fn row(
    name: Seq<char>,
    kind: Seq<char>,
    severity: Seq<char>,
    enabled: Seq<char>,
) -> Seq<char> {
    fill(ROW_TEXT@, seq![padded(name, 40), padded(kind, 10), padded(severity, 10), enabled])
}

fn format_row(name: &str, kind: &str, severity: &str, enabled: &str) -> (r: String)
    ensures
        r@ == row(name@, kind@, severity@, enabled@),
{
    let name = pad(name, 40);
    let kind = pad(kind, 10);
    let severity = pad(severity, 10);
    let args: Vec<&str> = vec![name.as_str(), kind.as_str(), severity.as_str(), enabled];
    assert(views(args@) =~= seq![name@, kind@, severity@, enabled@]);
    fill_template(ROW_TEXT, &args)
}

/// The row of a check.
pub open spec fn check_row(check: CheckInfo, config: Config) -> Seq<char> {
    row(
        check.name@,
        kind_of(check),
        severity_name(config, check.name@),
        if config.enables(check.name@) {
            "yes"@
        } else {
            "no"@
        },
    )
}

/// The list of checks: a header, then a row for each check.
pub open spec fn check_table(checks: Seq<CheckInfo>, config: Config) -> Seq<char>
    decreases checks.len(),
{
    if checks.len() == 0 {
        row("NAME"@, "TYPE"@, "SEVERITY"@, "ENABLED"@)
    } else {
        check_table(checks.drop_last(), config) + check_row(checks.last(), config)
    }
}

/// Formats the list of checks, as `check_table` says.
pub fn format_check_table(checks: &Vec<CheckInfo>, config: &Config) -> (r: String)
    ensures
        r@ == check_table(checks@, *config),
{
    let mut r = format_row("NAME", "TYPE", "SEVERITY", "ENABLED");
    let mut i: usize = 0;
    assert(checks@.take(0) =~= Seq::<CheckInfo>::empty());
    while i < checks.len()
        invariant
            i <= checks.len(),
            r@ == check_table(checks@.take(i as int), *config),
        decreases checks.len() - i,
    {
        let check = &checks[i];
        let name = check.name.as_str();
        let enabled = if config.is_check_enabled(name) {
            "yes"
        } else {
            "no"
        };
        r.append(
            format_row(name, check_kind(check), check_severity(config, name), enabled).as_str(),
        );
        assert(checks@.take(i + 1).drop_last() =~= checks@.take(i as int));
        i += 1;
    }
    assert(checks@.take(checks@.len() as int) =~= checks@);
    r
}

/// The heading of an explanation.
pub const EXPLAIN_TEXT: &'static str = "{0} ({1} | {2} | {3})\n\n";

/// What is said of a custom check without a description.
pub const NO_DESCRIPTION_TEXT: &'static str =
    "No description available. Add fn describe() to the script:\n  {0}";

/// What is said of a built-in check without documentation.
pub const NO_DOCUMENTATION_TEXT: &'static str = "No documentation available.\n";

/// The explanation of a check.
pub open spec fn explanation(check: CheckInfo, config: Config) -> Seq<char> {
    fill(
        EXPLAIN_TEXT@,
        seq![
            check.name@,
            kind_of(check),
            severity_name(config, check.name@),
            if config.enables(check.name@) {
                "enabled"@
            } else {
                "disabled"@
            },
        ],
    ) + (match (check.doc, check.script_path) {
        (Some(doc), _) => doc@,
        (None, Some(path)) => fill(NO_DESCRIPTION_TEXT@, seq![path@]),
        (None, None) => NO_DOCUMENTATION_TEXT@,
    })
}

/// Explains a check, as `explanation` says.
pub fn format_explanation(check: &CheckInfo, config: &Config) -> (r: String)
    ensures
        r@ == explanation(*check, *config),
{
    let name = check.name.as_str();
    let kind = check_kind(check);
    let severity = check_severity(config, name);
    let enabled = if config.is_check_enabled(name) {
        "enabled"
    } else {
        "disabled"
    };
    let args: Vec<&str> = vec![name, kind, severity, enabled];
    assert(views(args@) =~= seq![name@, kind@, severity@, enabled@]);
    let mut r = fill_template(EXPLAIN_TEXT, &args);
    match &check.doc {
        Some(doc) => {
            r.append(doc.as_str());
        },
        None => match &check.script_path {
            Some(path) => {
                let path_args: Vec<&str> = vec![path.as_str()];
                assert(views(path_args@) =~= seq![path@]);
                r.append(fill_template(NO_DESCRIPTION_TEXT, &path_args).as_str());
            },
            None => {
                r.append(NO_DOCUMENTATION_TEXT);
            },
        },
    }
    r
}

// ---------------------------------------------------------------------------
// Workflow commands
// ---------------------------------------------------------------------------

/// The escape of a character in the data of a workflow command.
pub open spec fn data_escape() -> spec_fn(char) -> Seq<char> {
    |c: char|
        if c == '%' {
            seq!['%', '2', '5']
        } else if c == '\r' {
            seq!['%', '0', 'D']
        } else if c == '\n' {
            seq!['%', '0', 'A']
        } else {
            seq![c]
        }
}

/// The escape of a character in a property of a workflow command.
pub open spec fn property_escape() -> spec_fn(char) -> Seq<char> {
    |c: char|
        if c == ':' {
            seq!['%', '3', 'A']
        } else if c == ',' {
            seq!['%', '2', 'C']
        } else {
            data_escape()(c)
        }
}

/// Encodes a text for a property of a workflow command (the `key=value` pairs before `::`), in which
/// `%`, `\r`, `\n`, `:` and `,` are percent-encoded.
pub fn encode_property(s: &str) -> (r: String)
    ensures
        r@ == s@.flat_map(property_escape()),
{
    let chars = to_chars(s);
    let ghost f = property_escape();
    let mut r = String::new();
    let mut i: usize = 0;
    assert(r@ =~= s@.take(0).flat_map(f));
    while i < chars.len()
        invariant
            i <= chars.len(),
            chars@ == s@,
            f == property_escape(),
            r@ == s@.take(i as int).flat_map(f),
        decreases chars.len() - i,
    {
        proof {
            s@.lemma_flat_map_take_append(f, i as int);
        }
        push_escaped(&mut r, chars[i], true);
        i += 1;
    }
    assert(s@.take(s@.len() as int) =~= s@);
    r
}

/// Encodes a text for the data of a workflow command (the part after `::`), in which only `%`, `\r`
/// and `\n` are percent-encoded.
pub fn encode_data(s: &str) -> (r: String)
    ensures
        r@ == s@.flat_map(data_escape()),
{
    let chars = to_chars(s);
    let ghost f = data_escape();
    let mut r = String::new();
    let mut i: usize = 0;
    assert(r@ =~= s@.take(0).flat_map(f));
    while i < chars.len()
        invariant
            i <= chars.len(),
            chars@ == s@,
            f == data_escape(),
            r@ == s@.take(i as int).flat_map(f),
        decreases chars.len() - i,
    {
        proof {
            s@.lemma_flat_map_take_append(f, i as int);
        }
        push_escaped(&mut r, chars[i], false);
        i += 1;
    }
    assert(s@.take(s@.len() as int) =~= s@);
    r
}

fn push_escaped(out: &mut String, c: char, in_property: bool)
    ensures
        final(out)@ == old(out)@ + (if in_property {
            property_escape()(c)
        } else {
            data_escape()(c)
        }),
{
    proof {
        reveal_strlit("%25");
        reveal_strlit("%0D");
        reveal_strlit("%0A");
        reveal_strlit("%3A");
        reveal_strlit("%2C");
    }
    if c == '%' {
        out.append("%25");
        assert("%25"@ =~= seq!['%', '2', '5']);
    } else if c == '\r' {
        out.append("%0D");
        assert("%0D"@ =~= seq!['%', '0', 'D']);
    } else if c == '\n' {
        out.append("%0A");
        assert("%0A"@ =~= seq!['%', '0', 'A']);
    } else if in_property && c == ':' {
        out.append("%3A");
        assert("%3A"@ =~= seq!['%', '3', 'A']);
    } else if in_property && c == ',' {
        out.append("%2C");
        assert("%2C"@ =~= seq!['%', '2', 'C']);
    } else {
        out.push(c);
        assert(out@ =~= old(out)@ + seq![c]);
    }
}

/// A workflow command.
pub const COMMAND_TEXT: &'static str = "::{0} file={1},line={2}::{3}\n";

/// The message of a violation.
pub const MESSAGE_TEXT: &'static str = "{0}: {1}";

/// The workflow command for a violation of a file.
pub open spec fn command_for(path: Seq<char>) -> spec_fn((usize, ViolationView)) -> Seq<char> {
    |entry: (usize, ViolationView)|
        fill(
            COMMAND_TEXT@,
            seq![
                match entry.1.severity {
                    Severity::Error => "error"@,
                    Severity::Warning => "warning"@,
                },
                path.flat_map(property_escape()),
                decimal(entry.0 as nat),
                fill(MESSAGE_TEXT@, seq![entry.1.operation, entry.1.problem]).flat_map(
                    data_escape(),
                ),
            ],
        )
}

/// The workflow commands for a file.
pub open spec fn commands_for() -> spec_fn((Seq<char>, Seq<(usize, ViolationView)>)) -> Seq<char> {
    |entry: (Seq<char>, Seq<(usize, ViolationView)>)| entry.1.flat_map(command_for(entry.0))
}

fn format_command(path: &str, line: usize, violation: &Violation) -> (r: String)
    ensures
        r@ == command_for(path@)((line, violation@)),
{
    let level = match violation.severity {
        Severity::Error => "error",
        Severity::Warning => "warning",
    };
    let raw_args: Vec<&str> = vec![violation.operation.as_str(), violation.problem.as_str()];
    assert(views(raw_args@) =~= seq![violation.operation@, violation.problem@]);
    let raw = fill_template(MESSAGE_TEXT, &raw_args);
    let file = encode_property(path);
    let message = encode_data(raw.as_str());
    let number = decimal_text(line as u64);
    let args: Vec<&str> = vec![level, file.as_str(), number.as_str(), message.as_str()];
    assert(views(args@) =~= seq![level@, file@, number@, message@]);
    fill_template(COMMAND_TEXT, &args)
}

fn format_commands(path: &str, violations: &ViolationList) -> (r: String)
    ensures
        r@ == list_views(violations@).flat_map(command_for(path@)),
{
    let ghost all = list_views(violations@);
    let ghost f = command_for(path@);
    let mut r = String::new();
    let mut i: usize = 0;
    assert(r@ =~= all.take(0).flat_map(f));
    while i < violations.len()
        invariant
            i <= violations.len(),
            all == list_views(violations@),
            f == command_for(path@),
            r@ == all.take(i as int).flat_map(f),
        decreases violations.len() - i,
    {
        proof {
            assert(all[i as int] == (violations@[i as int].0, violations@[i as int].1@));
            all.lemma_flat_map_take_append(f, i as int);
        }
        r.append(format_command(path, violations[i].0, &violations[i].1).as_str());
        i += 1;
    }
    assert(all.take(all.len() as int) =~= all);
    r
}

impl Formatter for TextFormatter {
    fn format_results(&self, results: &Vec<(String, ViolationList)>) -> (r: String)
        ensures
            is_painting(report(result_views(results@)), r@),
    {
        render(&layout_results(results))
    }

    fn format_checks(&self, checks: &Vec<CheckInfo>, config: &Config) -> (r: String)
        ensures
            r@ == check_table(checks@, *config),
    {
        format_check_table(checks, config)
    }

    fn format_explain(&self, check: &CheckInfo, config: &Config) -> (r: String)
        ensures
            r@ == explanation(*check, *config),
    {
        format_explanation(check, config)
    }
}

impl Formatter for GithubFormatter {
    fn format_results(&self, results: &Vec<(String, ViolationList)>) -> (r: String)
        ensures
            r@ == result_views(results@).flat_map(commands_for()),
    {
        let ghost all = result_views(results@);
        let ghost f = commands_for();
        let mut r = String::new();
        let mut i: usize = 0;
        assert(r@ =~= all.take(0).flat_map(f));
        while i < results.len()
            invariant
                i <= results.len(),
                all == result_views(results@),
                f == commands_for(),
                r@ == all.take(i as int).flat_map(f),
            decreases results.len() - i,
        {
            proof {
                assert(all[i as int] == (results@[i as int].0@, list_views(results@[i as int].1@)));
                all.lemma_flat_map_take_append(f, i as int);
            }
            r.append(format_commands(results[i].0.as_str(), &results[i].1).as_str());
            i += 1;
        }
        assert(all.take(all.len() as int) =~= all);
        r
    }

    fn format_checks(&self, checks: &Vec<CheckInfo>, config: &Config) -> (r: String)
        ensures
            r@ == check_table(checks@, *config),
    {
        format_check_table(checks, config)
    }

    fn format_explain(&self, check: &CheckInfo, config: &Config) -> (r: String)
        ensures
            r@ == explanation(*check, *config),
    {
        format_explanation(check, config)
    }
}

// ---------------------------------------------------------------------------
// Laws
// ---------------------------------------------------------------------------

/// What a percent-encoded text stands for.
pub open spec fn decoded(s: Seq<char>) -> Seq<char>
    decreases s.len(),
{
    if s.len() == 0 {
        Seq::empty()
    } else if s.len() >= 3 && s[0] == '%' {
        let c = if s[1] == '2' && s[2] == '5' {
            '%'
        } else if s[1] == '0' && s[2] == 'D' {
            '\r'
        } else if s[1] == '0' && s[2] == 'A' {
            '\n'
        } else if s[1] == '3' && s[2] == 'A' {
            ':'
        } else {
            ','
        };
        seq![c] + decoded(s.skip(3))
    } else {
        seq![s[0]] + decoded(s.skip(1))
    }
}

proof fn lemma_flat_map_head(s: Seq<char>, f: spec_fn(char) -> Seq<char>)
    requires
        s.len() > 0,
    ensures
        s.flat_map(f) == f(s[0]) + s.skip(1).flat_map(f),
{
    let pieces = s.map_values(f);
    assert(s.skip(1).map_values(f) =~= pieces.drop_first());
}

proof fn lemma_decoded(s: Seq<char>, f: spec_fn(char) -> Seq<char>)
    requires
        f == data_escape() || f == property_escape(),
    ensures
        decoded(s.flat_map(f)) == s,
    decreases s.len(),
{
    if s.len() == 0 {
        assert(s.flat_map(f) =~= Seq::<char>::empty());
        assert(decoded(s.flat_map(f)) =~= s);
    } else {
        lemma_flat_map_head(s, f);
        lemma_decoded(s.skip(1), f);
        let rest = s.skip(1).flat_map(f);
        let all = s.flat_map(f);
        assert(all == f(s[0]) + rest);
        if f(s[0]).len() == 3 {
            assert(all.skip(3) =~= rest);
        } else {
            assert(all.skip(1) =~= rest);
        }
        assert(seq![s[0]] + s.skip(1) =~= s);
    }
}

/// No encoding loses anything: decoding gives the text back.
pub proof fn law_encodings_are_reversible(s: Seq<char>)
    ensures
        decoded(s.flat_map(data_escape())) == s,
        decoded(s.flat_map(property_escape())) == s,
{
    lemma_decoded(s, data_escape());
    lemma_decoded(s, property_escape());
}

proof fn lemma_escaped_chars(s: Seq<char>, f: spec_fn(char) -> Seq<char>, bad: char)
    requires
        forall|c: char| !(#[trigger] f(c)).contains(bad),
    ensures
        !s.flat_map(f).contains(bad),
    decreases s.len(),
{
    if s.len() == 0 {
        assert(s.flat_map(f) =~= Seq::<char>::empty());
    } else {
        lemma_flat_map_head(s, f);
        lemma_escaped_chars(s.skip(1), f, bad);
        let all = s.flat_map(f);
        if all.contains(bad) {
            let k = choose|k: int| 0 <= k < all.len() && all[k] == bad;
            if k < f(s[0]).len() {
                assert(f(s[0])[k] == bad);
                assert(f(s[0]).contains(bad));
            } else {
                assert(s.skip(1).flat_map(f)[k - f(s[0]).len()] == bad);
            }
        }
    }
}

/// Encoded data never breaks a line, and an encoded property holds no character that ends it.
pub proof fn law_encodings_do_not_break_commands(s: Seq<char>)
    ensures
        !s.flat_map(data_escape()).contains('\r'),
        !s.flat_map(data_escape()).contains('\n'),
        !s.flat_map(property_escape()).contains('\r'),
        !s.flat_map(property_escape()).contains('\n'),
        !s.flat_map(property_escape()).contains(':'),
        !s.flat_map(property_escape()).contains(','),
{
    lemma_escaped_chars(s, data_escape(), '\r');
    lemma_escaped_chars(s, data_escape(), '\n');
    lemma_escaped_chars(s, property_escape(), '\r');
    lemma_escaped_chars(s, property_escape(), '\n');
    lemma_escaped_chars(s, property_escape(), ':');
    lemma_escaped_chars(s, property_escape(), ',');
}

// ---------------------------------------------------------------------------
// Laws on the report
// ---------------------------------------------------------------------------

/// Whether a violation has a severity.
pub open spec fn has_severity(severity: Severity) -> spec_fn((usize, ViolationView)) -> bool {
    |entry: (usize, ViolationView)| entry.1.severity == severity
}

/// The number of violations of a severity is that of the entries with this severity, wherever they
/// stand, and the errors and warnings of a file together are all of its violations.
pub proof fn law_violations_are_counted(violations: Seq<(usize, ViolationView)>, severity: Severity)
    ensures
        count_in(violations, severity) == violations.filter(has_severity(severity)).len(),
        count_in(violations, Severity::Error) + count_in(violations, Severity::Warning)
            == violations.len(),
    decreases violations.len(),
{
    reveal(Seq::filter);
    if violations.len() > 0 {
        law_violations_are_counted(violations.drop_last(), severity);
    }
}

/// A violation counts for its own severity and for no other, at whatever place it stands.
pub proof fn law_a_violation_counts_once(
    before: Seq<(usize, ViolationView)>,
    entry: (usize, ViolationView),
    after: Seq<(usize, ViolationView)>,
    severity: Severity,
)
    ensures
        count_in(before.push(entry) + after, severity) == count_in(before, severity) + count_in(
            after,
            severity,
        ) + (if entry.1.severity == severity {
            1int
        } else {
            0int
        }),
    decreases after.len(),
{
    let all = before.push(entry) + after;
    if after.len() == 0 {
        assert(all =~= before.push(entry));
        assert(before.push(entry).drop_last() =~= before);
    } else {
        assert(all.drop_last() =~= before.push(entry) + after.drop_last());
        law_a_violation_counts_once(before, entry, after.drop_last(), severity);
    }
}

/// The violations of all files are counted file by file.
pub proof fn law_files_are_counted_together(
    results: Seq<(Seq<char>, Seq<(usize, ViolationView)>)>,
    entry: (Seq<char>, Seq<(usize, ViolationView)>),
    severity: Severity,
)
    ensures
        count_all(Seq::empty(), severity) == 0,
        count_all(results.push(entry), severity) == count_all(results, severity) + entry.1.filter(
            has_severity(severity),
        ).len(),
{
    assert(results.push(entry).drop_last() =~= results);
    law_violations_are_counted(entry.1, severity);
}

/// A file is headed as unsafe exactly if one of its violations is an error, at whatever place; with
/// warnings alone it is headed as one with warnings. The heading names the file.
pub proof fn law_headings_tell_errors_from_warnings(
    path: Seq<char>,
    violations: Seq<(usize, ViolationView)>,
)
    ensures
        ({
            let shown = file_segments(path, violations);
            &&& shown.len() >= 5
            &&& shown[1] == if exists|k: int|
                0 <= k < violations.len() && (#[trigger] violations[k]).1.severity
                    == Severity::Error {
                styled("Unsafe migration detected in"@, Style::RedBold)
            } else {
                styled("Migration warnings in"@, Style::YellowBold)
            }
            &&& shown[3] == styled(path, Style::Yellow)
            &&& shown[2] == styled(" "@, Style::Plain)
            &&& shown[4] == styled("\n\n"@, Style::Plain)
            &&& shown[0] == if exists|k: int|
                0 <= k < violations.len() && (#[trigger] violations[k]).1.severity
                    == Severity::Error {
                styled("❌ "@, Style::Plain)
            } else {
                styled("⚠️ "@, Style::Plain)
            }
        }),
{
    if any_error(violations) {
        let k = choose|k: int| 0 <= k < violations.len() && is_error(#[trigger] violations[k]);
        assert(violations[k].1.severity == Severity::Error);
    }
    if exists|k: int|
        0 <= k < violations.len() && (#[trigger] violations[k]).1.severity == Severity::Error {
        let k = choose|k: int|
            0 <= k < violations.len() && (#[trigger] violations[k]).1.severity == Severity::Error;
        assert(is_error(violations[k]));
    }
}

/// Every violation of a file is shown behind the heading, in their order, and each in the same way:
/// its operation in the style of its severity, its line, its problem and its advice.
pub proof fn law_every_violation_is_laid_out(
    path: Seq<char>,
    violations: Seq<(usize, ViolationView)>,
    k: int,
)
    requires
        0 <= k < violations.len(),
    ensures
        ({
            let shown = file_segments(path, violations);
            let entry = violations[k];
            &&& shown.len() == 5 + 11 * violations.len()
            &&& shown[5 + 11 * k] == styled(
                if entry.1.severity == Severity::Error {
                    "❌ "@
                } else {
                    "⚠️  "@
                },
                Style::Plain,
            )
            &&& shown[5 + 11 * k + 5] == styled("Problem:"@, Style::WhiteBold)
            &&& shown[5 + 11 * k + 7] == styled("Safe alternative:"@, Style::GreenBold)
            &&& shown[5 + 11 * k + 1] == styled(
                entry.1.operation,
                if entry.1.severity == Severity::Error {
                    Style::RedBold
                } else {
                    Style::YellowBold
                },
            )
            &&& shown[5 + 11 * k + 3] == styled(
                "(line "@ + decimal(entry.0 as nat) + ")"@,
                Style::Dimmed,
            )
            &&& shown[5 + 11 * k + 6] == styled(
                "\n  "@ + entry.1.problem + "\n\n"@,
                Style::Plain,
            )
            &&& shown[5 + 11 * k + 9] == styled(
                indented(lines(entry.1.safe_alternative)),
                Style::Plain,
            )
        }),
{
    let f = violation_segments();
    let entry = violations[k];
    lemma_shown_at(violations, k);
    let all = violations.flat_map(f);
    assert forall|j: int| 0 <= j < 11 implies #[trigger] all[11 * k + j] == f(entry)[j] by {}
    let shown = file_segments(path, violations);
    assert(shown[5 + 11 * k] == all[11 * k + 0]);
    assert(shown[5 + 11 * k + 5] == all[11 * k + 5]);
    assert(shown[5 + 11 * k + 7] == all[11 * k + 7]);
    assert(shown[5 + 11 * k + 1] == all[11 * k + 1]);
    assert(shown[5 + 11 * k + 3] == all[11 * k + 3]);
    assert(shown[5 + 11 * k + 6] == all[11 * k + 6]);
    assert(shown[5 + 11 * k + 9] == all[11 * k + 9]);
    lemma_line_text(decimal(entry.0 as nat));
    lemma_problem_text(entry.1.problem);
}

proof fn lemma_shown_at(violations: Seq<(usize, ViolationView)>, k: int)
    requires
        0 <= k < violations.len(),
    ensures
        violations.flat_map(violation_segments()).len() == 11 * violations.len(),
        forall|j: int|
            0 <= j < 11 ==> #[trigger] violations.flat_map(violation_segments())[11 * k + j]
                == violation_segments()(violations[k])[j],
    decreases violations.len(),
{
    let f = violation_segments();
    let rest = violations.drop_last();
    let last = violations.last();
    assert(rest.push(last) =~= violations);
    rest.lemma_flat_map_push(f, last);
    assert(f(last).len() == 11);
    if rest.len() > 0 {
        lemma_shown_at(rest, if k < rest.len() {
            k
        } else {
            0
        });
    } else {
        assert(rest.flat_map(f) =~= Seq::<SegmentView>::empty());
    }
}

proof fn lemma_line_text(number: Seq<char>)
    ensures
        fill(LINE_TEXT@, seq![number]) == "(line "@ + number + ")"@,
{
    reveal_strlit("(line {0})");
    reveal_strlit("(line ");
    reveal_strlit(")");
    let args = seq![number];
    assert(LINE_TEXT@ =~= "(line "@ + (seq!['{', '0', '}'] + ")"@));
    law_holes_are_filled("(line "@, '0', ")"@, args);
    law_plain_templates_stay(")"@, args);
    assert("(line "@ + (number + ")"@) =~= "(line "@ + number + ")"@);
}

proof fn lemma_problem_text(problem: Seq<char>)
    ensures
        fill(PROBLEM_TEXT@, seq![problem]) == "\n  "@ + problem + "\n\n"@,
{
    reveal_strlit("\n  {0}\n\n");
    reveal_strlit("\n  ");
    reveal_strlit("\n\n");
    let args = seq![problem];
    assert(PROBLEM_TEXT@ =~= "\n  "@ + (seq!['{', '0', '}'] + "\n\n"@));
    law_holes_are_filled("\n  "@, '0', "\n\n"@, args);
    law_plain_templates_stay("\n\n"@, args);
    assert("\n  "@ + (problem + "\n\n"@) =~= "\n  "@ + problem + "\n\n"@);
}

/// Each line of the advice is indented by two spaces and ended by a line feed.
pub proof fn law_advice_is_indented(text_lines: Seq<Seq<char>>, line: Seq<char>)
    ensures
        indented(Seq::empty()) == Seq::<char>::empty(),
        indented(text_lines.push(line)) == indented(text_lines) + (seq![' ', ' '] + line + seq!['\n']),
{
    reveal_strlit("  ");
    reveal_strlit("\n");
    assert(text_lines.push(line).drop_last() =~= text_lines);
    assert("  "@ =~= seq![' ', ' ']);
    assert("\n"@ =~= seq!['\n']);
    assert(indented(text_lines) + seq![' ', ' '] + line + seq!['\n'] =~= indented(text_lines) + (
    seq![' ', ' '] + line + seq!['\n']));
}

/// The summary gives the number of errors, if there are any, and the number of warnings, if there are
/// any, and says that nothing was found if there are neither.
pub proof fn law_the_summary_gives_both_numbers(errors: usize, warnings: usize)
    ensures
        errors > 0 ==> summary(errors, warnings).len() >= 5 && summary(errors, warnings)[3]
            == styled(decimal(errors as nat), Style::RedBold),
        errors > 0 && warnings > 0 ==> summary(errors, warnings)[5] == styled(
            decimal(warnings as nat),
            Style::YellowBold,
        ),
        errors > 0 && warnings == 0 ==> summary(errors, warnings)[4] == styled(
            " unsafe migration(s) detected"@,
            Style::Plain,
        ),
        errors == 0 && warnings > 0 ==> summary(errors, warnings)[1] == styled(
            decimal(warnings as nat),
            Style::YellowBold,
        ) && summary(errors, warnings)[2] == styled(
            " migration warning(s) detected (not blocking)"@,
            Style::Plain,
        ),
        errors == 0 && warnings == 0 ==> summary(errors, warnings) == seq![
            styled("✅ No unsafe migrations detected!"@, Style::GreenBold),
        ],
{
}

/// The report shows every file, in their order, then the summary with the numbers of all errors and
/// all warnings.
pub proof fn law_the_report_shows_every_file(
    results: Seq<(Seq<char>, Seq<(usize, ViolationView)>)>,
    i: int,
)
    requires
        0 <= i < results.len(),
    ensures
        ({
            let before = results.take(i).flat_map(result_segments());
            let own = file_segments(results[i].0, results[i].1);
            let behind = results.skip(i + 1).flat_map(result_segments());
            report(results) == before + own + behind + summary(
                capped(count_all(results, Severity::Error)),
                capped(count_all(results, Severity::Warning)),
            ) + seq![styled("\n"@, Style::Plain)]
        }),
{
    let f = result_segments();
    let (a, b) = (results.take(i), results.skip(i + 1));
    assert(results =~= a.push(results[i]) + b);
    lemma_flat_map_joined(a.push(results[i]), b, f);
    a.lemma_flat_map_push(f, results[i]);
}

proof fn lemma_flat_map_joined<A, B>(first: Seq<A>, second: Seq<A>, f: spec_fn(A) -> Seq<B>)
    ensures
        (first + second).flat_map(f) == first.flat_map(f) + second.flat_map(f),
    decreases second.len(),
{
    if second.len() == 0 {
        assert(first + second =~= first);
        assert(second.flat_map(f) =~= Seq::<B>::empty());
        assert(first.flat_map(f) + second.flat_map(f) =~= first.flat_map(f));
    } else {
        let rest = second.drop_last();
        lemma_flat_map_joined(first, rest, f);
        assert(rest.push(second.last()) =~= second);
        assert((first + rest).push(second.last()) =~= first + second);
        rest.lemma_flat_map_push(f, second.last());
        (first + rest).lemma_flat_map_push(f, second.last());
        assert(first.flat_map(f) + rest.flat_map(f) + f(second.last()) =~= first.flat_map(f) + (
        rest.flat_map(f) + f(second.last())));
    }
}

/// A count is given as it is, unless no `usize` holds it.
pub proof fn law_counts_are_exact(n: nat)
    ensures
        n <= usize::MAX ==> capped(n) == n,
        n > usize::MAX ==> capped(n) == usize::MAX,
{
}

// ---------------------------------------------------------------------------
// Laws on commands and lists
// ---------------------------------------------------------------------------

/// The characters that would end a command or a part of it are written as their codes: in data the
/// percent sign and the line breaks, in a property the colon and the comma too.
pub proof fn law_special_characters_are_escaped(s: Seq<char>, c: char)
    ensures
        s.push(c).flat_map(data_escape()) == s.flat_map(data_escape()) + (if c == '%' {
            seq!['%', '2', '5']
        } else if c == '\r' {
            seq!['%', '0', 'D']
        } else if c == '\n' {
            seq!['%', '0', 'A']
        } else {
            seq![c]
        }),
        s.push(c).flat_map(property_escape()) == s.flat_map(property_escape()) + (if c == '%' {
            seq!['%', '2', '5']
        } else if c == '\r' {
            seq!['%', '0', 'D']
        } else if c == '\n' {
            seq!['%', '0', 'A']
        } else if c == ':' {
            seq!['%', '3', 'A']
        } else if c == ',' {
            seq!['%', '2', 'C']
        } else {
            seq![c]
        }),
{
    s.lemma_flat_map_push(data_escape(), c);
    s.lemma_flat_map_push(property_escape(), c);
}

/// Every violation has a command of its own, in their order: its severity, the file, its line, and its
/// operation and problem, escaped.
pub proof fn law_every_violation_has_a_command(
    path: Seq<char>,
    violations: Seq<(usize, ViolationView)>,
    entry: (usize, ViolationView),
)
    ensures
        commands_for()((path, Seq::empty())).len() == 0,
        commands_for()((path, violations.push(entry))) == commands_for()((path, violations)) + (
        "::"@ + (if entry.1.severity == Severity::Error {
            "error"@
        } else {
            "warning"@
        }) + " file="@ + path.flat_map(property_escape()) + ",line="@ + decimal(entry.0 as nat)
            + "::"@ + (entry.1.operation + ": "@ + entry.1.problem).flat_map(data_escape())
            + "\n"@),
{
    let f = command_for(path);
    violations.lemma_flat_map_push(f, entry);
    assert(Seq::<(usize, ViolationView)>::empty().flat_map(f) =~= Seq::<char>::empty());
    lemma_message_text(entry.1.operation, entry.1.problem);
    lemma_command_text(
        if entry.1.severity == Severity::Error {
            "error"@
        } else {
            "warning"@
        },
        path.flat_map(property_escape()),
        decimal(entry.0 as nat),
        (entry.1.operation + ": "@ + entry.1.problem).flat_map(data_escape()),
    );
}

proof fn lemma_message_text(operation: Seq<char>, problem: Seq<char>)
    ensures
        fill(MESSAGE_TEXT@, seq![operation, problem]) == operation + ": "@ + problem,
{
    reveal_strlit("{0}: {1}");
    reveal_strlit(": ");
    let args = seq![operation, problem];
    let none = Seq::<char>::empty();
    let rest = ": "@ + (seq!['{', '1', '}'] + none);
    assert(MESSAGE_TEXT@ =~= none + (seq!['{', '0', '}'] + rest));
    law_holes_are_filled(none, '0', rest, args);
    law_holes_are_filled(": "@, '1', none, args);
    law_plain_templates_stay(none, args);
    assert(none + (operation + (": "@ + (problem + none))) =~= operation + ": "@ + problem);
}

proof fn lemma_command_text(kind: Seq<char>, file: Seq<char>, line: Seq<char>, message: Seq<char>)
    ensures
        fill(COMMAND_TEXT@, seq![kind, file, line, message]) == "::"@ + kind + " file="@ + file
            + ",line="@ + line + "::"@ + message + "\n"@,
{
    reveal_strlit("::{0} file={1},line={2}::{3}\n");
    reveal_strlit("::");
    reveal_strlit(" file=");
    reveal_strlit(",line=");
    reveal_strlit("\n");
    let args = seq![kind, file, line, message];
    let end = "\n"@;
    let third = "::"@ + (seq!['{', '3', '}'] + end);
    let second = ",line="@ + (seq!['{', '2', '}'] + third);
    let first = " file="@ + (seq!['{', '1', '}'] + second);
    assert(COMMAND_TEXT@ =~= "::"@ + (seq!['{', '0', '}'] + first));
    law_holes_are_filled("::"@, '0', first, args);
    law_holes_are_filled(" file="@, '1', second, args);
    law_holes_are_filled(",line="@, '2', third, args);
    law_holes_are_filled("::"@, '3', end, args);
    law_plain_templates_stay(end, args);
    assert("::"@ + (kind + (" file="@ + (file + (",line="@ + (line + ("::"@ + (message + end)))))))
        =~= "::"@ + kind + " file="@ + file + ",line="@ + line + "::"@ + message + end);
}

/// The commands of several files stand one after the other.
pub proof fn law_every_file_has_its_commands(
    results: Seq<(Seq<char>, Seq<(usize, ViolationView)>)>,
    entry: (Seq<char>, Seq<(usize, ViolationView)>),
)
    ensures
        Seq::<(Seq<char>, Seq<(usize, ViolationView)>)>::empty().flat_map(commands_for()).len()
            == 0,
        results.push(entry).flat_map(commands_for()) == results.flat_map(commands_for())
            + commands_for()(entry),
{
    results.lemma_flat_map_push(commands_for(), entry);
    assert(Seq::<(Seq<char>, Seq<(usize, ViolationView)>)>::empty().flat_map(commands_for())
        =~= Seq::<char>::empty());
}

/// A text is filled up with spaces behind it to the width; a longer one stays.
pub proof fn law_padding_fills_with_spaces(text: Seq<char>, width: nat)
    ensures
        text.len() >= width ==> padded(text, width) == text,
        text.len() < width ==> padded(text, width).len() == width && padded(text, width).take(
            text.len() as int,
        ) == text && forall|i: int|
            text.len() <= i < width ==> #[trigger] padded(text, width)[i] == ' ',
    decreases width - text.len(),
{
    if text.len() < width {
        let more = text.push(' ');
        law_padding_fills_with_spaces(more, width);
        let done = padded(text, width);
        assert(done.take(more.len() as int) =~= more);
        assert(done.take(text.len() as int) =~= text) by {
            assert forall|i: int| 0 <= i < text.len() implies done[i] == text[i] by {
                assert(done.take(more.len() as int)[i] == more[i]);
            }
        }
        assert forall|i: int| text.len() <= i < width implies #[trigger] done[i] == ' ' by {
            if i == text.len() {
                assert(done.take(more.len() as int)[i] == more[i]);
            }
        }
    }
}

/// The table of checks has a heading and then a row for each check, in their order: its name, whether it
/// is built in, its severity, and whether it runs.
pub proof fn law_every_check_has_a_row(checks: Seq<CheckInfo>, check: CheckInfo, config: Config)
    ensures
        check_table(Seq::empty(), config) == row("NAME"@, "TYPE"@, "SEVERITY"@, "ENABLED"@),
        check_table(checks.push(check), config) == check_table(checks, config) + row(
            check.name@,
            if check.script_path is None {
                "builtin"@
            } else {
                "custom"@
            },
            if exists|k: int|
                0 <= k < config.warn_checks@.len() && #[trigger] config.warn_checks@[k]@
                    == check.name@ {
                "warning"@
            } else {
                "error"@
            },
            if config.enables(check.name@) {
                "yes"@
            } else {
                "no"@
            },
        ),
{
    assert(checks.push(check).drop_last() =~= checks);
}

/// A row is its four cells, the first three filled up to 40, 10 and 10 characters, with a space between
/// each two of them and a line feed at the end.
pub proof fn law_rows_have_four_cells(
    name: Seq<char>,
    kind: Seq<char>,
    severity: Seq<char>,
    enabled: Seq<char>,
)
    ensures
        row(name, kind, severity, enabled) == padded(name, 40) + " "@ + padded(kind, 10) + " "@
            + padded(severity, 10) + " "@ + enabled + "\n"@,
{
    reveal_strlit("{0} {1} {2} {3}\n");
    reveal_strlit(" ");
    reveal_strlit("\n");
    let (a, b, c) = (padded(name, 40), padded(kind, 10), padded(severity, 10));
    let args = seq![a, b, c, enabled];
    let none = Seq::<char>::empty();
    let end = "\n"@;
    let third = " "@ + (seq!['{', '3', '}'] + end);
    let second = " "@ + (seq!['{', '2', '}'] + third);
    let first = " "@ + (seq!['{', '1', '}'] + second);
    assert(ROW_TEXT@ =~= none + (seq!['{', '0', '}'] + first));
    law_holes_are_filled(none, '0', first, args);
    law_holes_are_filled(" "@, '1', second, args);
    law_holes_are_filled(" "@, '2', third, args);
    law_holes_are_filled(" "@, '3', end, args);
    law_plain_templates_stay(end, args);
    assert(none + (a + (" "@ + (b + (" "@ + (c + (" "@ + (enabled + end))))))) =~= a + " "@ + b
        + " "@ + c + " "@ + enabled + end);
}

/// The explanation of a check is its name with what the configuration makes of it, and its documentation;
/// a custom check without one is explained by its script.
pub proof fn law_explanations_hold_the_documentation(check: CheckInfo, config: Config)
    ensures
        ({
            let kind = if check.script_path is None {
                "builtin"@
            } else {
                "custom"@
            };
            let severity = if exists|k: int|
                0 <= k < config.warn_checks@.len() && #[trigger] config.warn_checks@[k]@
                    == check.name@ {
                "warning"@
            } else {
                "error"@
            };
            let state = if config.enables(check.name@) {
                "enabled"@
            } else {
                "disabled"@
            };
            let doc = if check.doc is Some {
                check.doc->0@
            } else if check.script_path is Some {
                fill(NO_DESCRIPTION_TEXT@, seq![check.script_path->0@])
            } else {
                "No documentation available.\n"@
            };
            explanation(check, config) == check.name@ + " ("@ + kind + " | "@ + severity + " | "@
                + state + ")\n\n"@ + doc
        }),
{
    lemma_explain_text(
        check.name@,
        kind_of(check),
        severity_name(config, check.name@),
        if config.enables(check.name@) {
            "enabled"@
        } else {
            "disabled"@
        },
    );
}

proof fn lemma_explain_text(
    name: Seq<char>,
    kind: Seq<char>,
    severity: Seq<char>,
    state: Seq<char>,
)
    ensures
        fill(EXPLAIN_TEXT@, seq![name, kind, severity, state]) == name + " ("@ + kind + " | "@
            + severity + " | "@ + state + ")\n\n"@,
{
    reveal_strlit("{0} ({1} | {2} | {3})\n\n");
    reveal_strlit(" (");
    reveal_strlit(" | ");
    reveal_strlit(")\n\n");
    let args = seq![name, kind, severity, state];
    let none = Seq::<char>::empty();
    let end = ")\n\n"@;
    let third = " | "@ + (seq!['{', '3', '}'] + end);
    let second = " | "@ + (seq!['{', '2', '}'] + third);
    let first = " ("@ + (seq!['{', '1', '}'] + second);
    assert(EXPLAIN_TEXT@ =~= none + (seq!['{', '0', '}'] + first));
    law_holes_are_filled(none, '0', first, args);
    law_holes_are_filled(" ("@, '1', second, args);
    law_holes_are_filled(" | "@, '2', third, args);
    law_holes_are_filled(" | "@, '3', end, args);
    law_plain_templates_stay(end, args);
    assert(none + (name + (" ("@ + (kind + (" | "@ + (severity + (" | "@ + (state + end))))))) =~= name
        + " ("@ + kind + " | "@ + severity + " | "@ + state + end);
}

/// Without results the report says that nothing was found, and nothing else.
pub proof fn law_an_empty_report_says_so(results: Seq<(Seq<char>, Seq<(usize, ViolationView)>)>)
    requires
        results.len() == 0,
    ensures
        report(results) == seq![
            styled("✅ No unsafe migrations detected!"@, Style::GreenBold),
            styled("\n"@, Style::Plain),
        ],
{
}

} // verus!
