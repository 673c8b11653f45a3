//! What a check reports.

use crate::text::{fill, fill_template, views};
use vstd::prelude::*;

verus! {

/// How serious a violation is.
#[derive(Debug, Clone, Copy, PartialEq, Eq, Structural)]
pub enum Severity {
    Error,
    Warning,
}

/// A dangerous operation, why it is dangerous, and what to do instead.
#[derive(Debug, Clone)]
pub struct Violation {
    pub operation: String,
    pub problem: String,
    pub safe_alternative: String,
    pub severity: Severity,
    /// The check that reported it; empty until a registry has filled it in.
    pub check_name: String,
}

/// The model of a violation.
pub struct ViolationView {
    pub operation: Seq<char>,
    pub problem: Seq<char>,
    pub safe_alternative: Seq<char>,
    pub severity: Severity,
    pub check_name: Seq<char>,
}

impl View for Violation {
    type V = ViolationView;

    open spec fn view(&self) -> ViolationView {
        ViolationView {
            operation: self.operation@,
            problem: self.problem@,
            safe_alternative: self.safe_alternative@,
            severity: self.severity,
            check_name: self.check_name@,
        }
    }
}

/// The model of a list of violations.
pub open spec fn violation_views(violations: Seq<Violation>) -> Seq<ViolationView> {
    violations.map_values(|v: Violation| v@)
}

/// The model of a violation that may be absent.
pub open spec fn opt_view(violation: Option<Violation>) -> Option<ViolationView> {
    match violation {
        Some(v) => Some(v@),
        None => None,
    }
}

impl ViolationView {
    /// An error that no registry has attributed to a check yet.
    pub open spec fn new(
        operation: Seq<char>,
        problem: Seq<char>,
        safe_alternative: Seq<char>,
    ) -> ViolationView {
        ViolationView {
            operation,
            problem,
            safe_alternative,
            severity: Severity::Error,
            check_name: Seq::empty(),
        }
    }

    /// The violation as a registry reports it.
    pub open spec fn attributed(self, severity: Severity, check_name: Seq<char>) -> ViolationView {
        ViolationView { severity, check_name, ..self }
    }
}

/// A violation whose two texts are templates over the same arguments.
pub open spec fn finding(
    operation: Seq<char>,
    problem: Seq<char>,
    safe_alternative: Seq<char>,
    args: Seq<Seq<char>>,
) -> ViolationView {
    ViolationView::new(operation, fill(problem, args), fill(safe_alternative, args))
}

impl Violation {
    pub fn new(operation: &str, problem: &str, safe_alternative: &str) -> (r: Violation)
        ensures
            r@ == ViolationView::new(operation@, problem@, safe_alternative@),
    {
        Violation {
            operation: operation.to_string(),
            problem: problem.to_string(),
            safe_alternative: safe_alternative.to_string(),
            severity: Severity::Error,
            check_name: String::new(),
        }
    }

    /// Builds a violation from templates, as `finding` says.
    pub fn from_templates(
        operation: &str,
        problem: &str,
        safe_alternative: &str,
        args: &Vec<&str>,
    ) -> (r: Violation)
        ensures
            r@ == finding(operation@, problem@, safe_alternative@, views(args@)),
    {
        Violation {
            operation: operation.to_string(),
            problem: fill_template(problem, args),
            safe_alternative: fill_template(safe_alternative, args),
            severity: Severity::Error,
            check_name: String::new(),
        }
    }

    /// The same violation with another severity.
    pub fn with_severity(self, severity: Severity) -> (r: Violation)
        ensures
            r@ == (ViolationView { severity, ..self@ }),
    {
        let mut v = self;
        v.severity = severity;
        v
    }

    /// The same violation, attributed to a check.
    pub fn with_check_name(self, check_name: &str) -> (r: Violation)
        ensures
            r@ == (ViolationView { check_name: check_name@, ..self@ }),
    {
        let mut v = self;
        v.check_name = check_name.to_string();
        v
    }
}

/// The empty list.
pub fn no_violations() -> (r: Vec<Violation>)
    ensures
        violation_views(r@) == Seq::<ViolationView>::empty(),
{
    let r: Vec<Violation> = Vec::new();
    assert(violation_views(r@) =~= Seq::<ViolationView>::empty());
    r
}

/// The list of one violation.
pub fn single_violation(v: Violation) -> (r: Vec<Violation>)
    ensures
        violation_views(r@) == seq![v@],
{
    let mut r: Vec<Violation> = Vec::new();
    r.push(v);
    assert(violation_views(r@) =~= seq![v@]);
    r
}

} // verus!
