//! JSON for other programs.

use super::{
    check_kind, check_severity, kind_of, severity_name, CheckInfo, Formatter, JsonFormatter,
};
use crate::checks::registry::list_views;
use crate::config::Config;
use crate::safety_checker::result_views;
use crate::text::{opt_str, opt_text};
use crate::violation::{Severity, Violation, ViolationView};
use crate::ViolationList;
use serde_json::Value;
use vstd::prelude::*;

verus! {

// ---------------------------------------------------------------------------
// Values
// ---------------------------------------------------------------------------

/// A value of JSON, as `serde_json` holds it.
#[verifier::external_type_specification]
#[verifier::external_body]
pub struct ExValue(serde_json::Value);

/// What `serde_json::Value::from` makes of a truth value.
pub uninterp spec fn bool_value(b: bool) -> serde_json::Value;

/// What `serde_json::Value::from` makes of a number.
pub uninterp spec fn number_value(n: usize) -> serde_json::Value;

/// What `serde_json::Value::from` makes of a text that may be missing.
pub uninterp spec fn text_value(text: Option<Seq<char>>) -> serde_json::Value;

/// What `serde_json::Value::from` makes of a list.
pub uninterp spec fn list_value(items: Seq<serde_json::Value>) -> serde_json::Value;

/// What `serde_json::Value::from_iter` makes of fields.
pub uninterp spec fn object_value(fields: Seq<(Seq<char>, serde_json::Value)>) -> serde_json::Value;

/// The text that `serde_json::to_string_pretty` gives for a value; nothing if it fails.
pub uninterp spec fn pretty_text(value: serde_json::Value) -> Option<Seq<char>>;

/// `serde_json::Value::from` on a truth value: a function of that value, named `bool_value`.
#[verifier::external_body]
fn json_bool(b: bool) -> (r: Value)
    ensures
        r == bool_value(b),
{
    serde_json::Value::from(b)
}

/// `serde_json::Value::from` on a number: a function of that number, named `number_value`.
#[verifier::external_body]
fn json_number(n: usize) -> (r: Value)
    ensures
        r == number_value(n),
{
    serde_json::Value::from(n)
}

/// `serde_json::Value::from` on a text that may be missing: a function of that text, named
/// `text_value`.
#[verifier::external_body]
fn json_text(text: Option<&str>) -> (r: Value)
    ensures
        r == text_value(opt_str(text)),
{
    serde_json::Value::from(text)
}

/// `serde_json::Value::from` on a list of values: a function of that list, named `list_value`.
#[verifier::external_body]
fn json_list(items: Vec<Value>) -> (r: Value)
    ensures
        r == list_value(items@),
{
    serde_json::Value::from(items)
}

/// `serde_json::Value::from_iter` on names with their values: a function of those, named
/// `object_value`.
#[verifier::external_body]
fn json_object(fields: Vec<(&'static str, Value)>) -> (r: Value)
    ensures
        r == object_value(field_views(fields@)),
{
    serde_json::Value::from_iter(fields)
}

/// `serde_json::to_string_pretty` on a value: a function of that value, named `pretty_text`.
#[verifier::external_body]
fn json_pretty(value: &Value) -> (r: Option<String>)
    ensures
        opt_text(r) == pretty_text(*value),
{
    serde_json::to_string_pretty(value).ok()
}

/// The models of fields.
pub open spec fn field_views(fields: Seq<(&'static str, Value)>) -> Seq<(Seq<char>, Value)> {
    fields.map_values(|field: (&'static str, Value)| (field.0@, field.1))
}

/// A text, or another one if it is missing.
pub open spec fn text_or(text: Option<Seq<char>>, other: Seq<char>) -> Seq<char> {
    match text {
        Some(text) => text,
        None => other,
    }
}

/// A text, or another one if it is missing, as `text_or` says.
pub fn text_or_else(text: Option<String>, other: &str) -> (r: String)
    ensures
        r@ == text_or(opt_text(text), other@),
{
    match text {
        Some(text) => text,
        None => other.to_string(),
    }
}

// ---------------------------------------------------------------------------
// Results
// ---------------------------------------------------------------------------

/// The name of a severity.
pub open spec fn severity_text(severity: Severity) -> Seq<char> {
    match severity {
        Severity::Error => "error"@,
        Severity::Warning => "warning"@,
    }
}

/// The fields of a violation.
pub open spec fn violation_fields(line: usize, violation: ViolationView) -> Seq<
    (Seq<char>, Value),
> {
    seq![
        ("line"@, number_value(line)),
        ("check_name"@, text_value(Some(violation.check_name))),
        ("operation"@, text_value(Some(violation.operation))),
        ("problem"@, text_value(Some(violation.problem))),
        ("safe_alternative"@, text_value(Some(violation.safe_alternative))),
        ("severity"@, text_value(Some(severity_text(violation.severity)))),
    ]
}

/// A violation as a value.
pub open spec fn violation_value() -> spec_fn((usize, ViolationView)) -> Value {
    |entry: (usize, ViolationView)| object_value(violation_fields(entry.0, entry.1))
}

/// A file with its violations as a value.
pub open spec fn file_value() -> spec_fn((Seq<char>, Seq<(usize, ViolationView)>)) -> Value {
    |entry: (Seq<char>, Seq<(usize, ViolationView)>)|
        object_value(
            seq![
                ("file"@, text_value(Some(entry.0))),
                ("violations"@, list_value(entry.1.map_values(violation_value()))),
            ],
        )
}

fn make_violation(line: usize, violation: &Violation) -> (r: Value)
    ensures
        r == violation_value()((line, violation@)),
{
    let severity = match violation.severity {
        Severity::Error => "error",
        Severity::Warning => "warning",
    };
    let fields: Vec<(&'static str, Value)> = vec![
        ("line", json_number(line)),
        ("check_name", json_text(Some(violation.check_name.as_str()))),
        ("operation", json_text(Some(violation.operation.as_str()))),
        ("problem", json_text(Some(violation.problem.as_str()))),
        ("safe_alternative", json_text(Some(violation.safe_alternative.as_str()))),
        ("severity", json_text(Some(severity))),
    ];
    assert(field_views(fields@) =~= violation_fields(line, violation@));
    json_object(fields)
}

fn make_violations(violations: &ViolationList) -> (r: Value)
    ensures
        r == list_value(list_views(violations@).map_values(violation_value())),
{
    let ghost all = list_views(violations@);
    let mut items: Vec<Value> = Vec::new();
    let mut i: usize = 0;
    while i < violations.len()
        invariant
            i <= violations.len(),
            all == list_views(violations@),
            items@ =~= all.take(i as int).map_values(violation_value()),
        decreases violations.len() - i,
    {
        assert(all[i as int] == (violations@[i as int].0, violations@[i as int].1@));
        items.push(make_violation(violations[i].0, &violations[i].1));
        i += 1;
    }
    assert(all.take(all.len() as int) =~= all);
    json_list(items)
}

fn make_file(path: &str, violations: &ViolationList) -> (r: Value)
    ensures
        r == file_value()((path@, list_views(violations@))),
{
    let fields: Vec<(&'static str, Value)> = vec![
        ("file", json_text(Some(path))),
        ("violations", make_violations(violations)),
    ];
    assert(field_views(fields@) =~= seq![
        ("file"@, text_value(Some(path@))),
        (
            "violations"@,
            list_value(list_views(violations@).map_values(violation_value())),
        ),
    ]);
    json_object(fields)
}

// ---------------------------------------------------------------------------
// Checks
// ---------------------------------------------------------------------------

/// The fields of a check: those of a custom one name its script.
pub open spec fn check_fields(check: CheckInfo, config: Config) -> Seq<(Seq<char>, Value)> {
    seq![
        ("name"@, text_value(Some(check.name@))),
        ("type"@, text_value(Some(kind_of(check)))),
        ("severity"@, text_value(Some(severity_name(config, check.name@)))),
        ("enabled"@, bool_value(config.enables(check.name@))),
    ] + match check.script_path {
        Some(path) => seq![("script_path"@, text_value(Some(path@)))],
        None => Seq::empty(),
    }
}

/// A check as a value.
pub open spec fn check_value(config: Config) -> spec_fn(CheckInfo) -> Value {
    |check: CheckInfo| object_value(check_fields(check, config))
}

fn make_check_fields(check: &CheckInfo, config: &Config) -> (r: Vec<(&'static str, Value)>)
    ensures
        field_views(r@) == check_fields(*check, *config),
{
    let mut fields: Vec<(&'static str, Value)> = vec![
        ("name", json_text(Some(check.name.as_str()))),
        ("type", json_text(Some(check_kind(check)))),
        ("severity", json_text(Some(check_severity(config, check.name.as_str())))),
        ("enabled", json_bool(config.is_check_enabled(check.name.as_str()))),
    ];
    if let Some(path) = &check.script_path {
        fields.push(("script_path", json_text(Some(path.as_str()))));
    }
    assert(field_views(fields@) =~= check_fields(*check, *config));
    fields
}

impl Formatter for JsonFormatter {
    fn format_results(&self, results: &Vec<(String, ViolationList)>) -> (r: String)
        ensures
            r@ == text_or(
                pretty_text(list_value(result_views(results@).map_values(file_value()))),
                "[]"@,
            ),
    {
        let ghost all = result_views(results@);
        let mut items: Vec<Value> = Vec::new();
        let mut i: usize = 0;
        while i < results.len()
            invariant
                i <= results.len(),
                all == result_views(results@),
                items@ =~= all.take(i as int).map_values(file_value()),
            decreases results.len() - i,
        {
            assert(all[i as int] == (results@[i as int].0@, list_views(results@[i as int].1@)));
            items.push(make_file(results[i].0.as_str(), &results[i].1));
            i += 1;
        }
        assert(all.take(all.len() as int) =~= all);
        text_or_else(json_pretty(&json_list(items)), "[]")
    }

    fn format_checks(&self, checks: &Vec<CheckInfo>, config: &Config) -> (r: String)
        ensures
            r@ == text_or(pretty_text(list_value(checks@.map_values(check_value(*config)))), "[]"@),
    {
        let mut items: Vec<Value> = Vec::new();
        let mut i: usize = 0;
        while i < checks.len()
            invariant
                i <= checks.len(),
                items@ =~= checks@.take(i as int).map_values(check_value(*config)),
            decreases checks.len() - i,
        {
            items.push(json_object(make_check_fields(&checks[i], config)));
            i += 1;
        }
        assert(checks@.take(checks@.len() as int) =~= checks@);
        text_or_else(json_pretty(&json_list(items)), "[]")
    }

    fn format_explain(&self, check: &CheckInfo, config: &Config) -> (r: String)
        ensures
            r@ == text_or(
                pretty_text(
                    object_value(
                        check_fields(*check, *config).push(
                            ("doc"@, text_value(opt_text(check.doc))),
                        ),
                    ),
                ),
                "{}"@,
            ),
    {
        let mut fields = make_check_fields(check, config);
        let ghost before = fields@;
        let doc = match &check.doc {
            Some(doc) => Some(doc.as_str()),
            None => None,
        };
        fields.push(("doc", json_text(doc)));
        assert(field_views(fields@) =~= field_views(before).push(
            ("doc"@, text_value(opt_text(check.doc))),
        ));
        text_or_else(json_pretty(&json_object(fields)), "{}")
    }
}

// ---------------------------------------------------------------------------
// Laws
// ---------------------------------------------------------------------------

/// A file is written with its path and all of its violations, in their order, each with its line, the
/// name of its check, its three texts and its severity.
pub proof fn law_every_violation_is_written(
    path: Seq<char>,
    violations: Seq<(usize, ViolationView)>,
)
    ensures
        ({
            let items = violations.map_values(violation_value());
            &&& file_value()((path, violations)) == object_value(
                seq![("file"@, text_value(Some(path))), ("violations"@, list_value(items))],
            )
            &&& items.len() == violations.len()
            &&& forall|i: int|
                0 <= i < violations.len() ==> #[trigger] items[i] == object_value(
                    seq![
                        ("line"@, number_value(violations[i].0)),
                        ("check_name"@, text_value(Some(violations[i].1.check_name))),
                        ("operation"@, text_value(Some(violations[i].1.operation))),
                        ("problem"@, text_value(Some(violations[i].1.problem))),
                        ("safe_alternative"@, text_value(Some(violations[i].1.safe_alternative))),
                        (
                            "severity"@,
                            text_value(
                                Some(
                                    if violations[i].1.severity == Severity::Error {
                                        "error"@
                                    } else {
                                        "warning"@
                                    },
                                ),
                            ),
                        ),
                    ],
                )
        }),
{
}

/// A check is written with its name, whether it is built in, its severity and whether it runs; a custom
/// one also with its script.
pub proof fn law_checks_are_written_with_their_settings(check: CheckInfo, config: Config)
    ensures
        ({
            let fields = check_fields(check, config);
            let warns = exists|k: int|
                0 <= k < config.warn_checks@.len() && #[trigger] config.warn_checks@[k]@
                    == check.name@;
            &&& fields.len() == if check.script_path is Some {
                5nat
            } else {
                4nat
            }
            &&& fields[0] == ("name"@, text_value(Some(check.name@)))
            &&& fields[1] == (
                "type"@,
                text_value(
                    Some(
                        if check.script_path is Some {
                            "custom"@
                        } else {
                            "builtin"@
                        },
                    ),
                ),
            )
            &&& fields[2] == (
                "severity"@,
                text_value(
                    Some(
                        if warns {
                            "warning"@
                        } else {
                            "error"@
                        },
                    ),
                ),
            )
            &&& fields[3] == ("enabled"@, bool_value(config.enables(check.name@)))
            &&& check.script_path is Some ==> fields[4] == (
                "script_path"@,
                text_value(Some(check.script_path->0@)),
            )
        }),
{
}

/// Checks are written one by one, in their order; where nothing can be written an empty text stands.
pub proof fn law_every_check_is_written(checks: Seq<CheckInfo>, config: Config, other: Seq<char>)
    ensures
        checks.map_values(check_value(config)).len() == checks.len(),
        forall|i: int|
            0 <= i < checks.len() ==> #[trigger] checks.map_values(check_value(config))[i]
                == object_value(check_fields(checks[i], config)),
        text_or(None, other) == other,
        forall|text: Seq<char>| #[trigger] text_or(Some(text), other) == text,
{
}

} // verus!
