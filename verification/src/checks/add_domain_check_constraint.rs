//! ALTER DOMAIN ... ADD CHECK without NOT VALID: validates every column of the domain at once.

use super::pg_helpers::{
    constraint_display_name, constraint_of, def_as_constraint, joined_strings, name_or, strings_of,
    ConstrType, NodeEnum,
};
use super::Check;
use crate::adapters::{ContextView, MigrationContext};
use crate::config::Config;
use crate::text::{join, same_text, views};
use crate::violation::{finding, no_violations, single_violation, Violation, ViolationView};
use vstd::prelude::*;

verus! {

/// What the violation says of the problem.
pub const PROBLEM: &'static str =
    "Adding CHECK constraint '{1}' to domain '{0}' without \
NOT VALID causes Postgres to validate all columns using this domain across all tables, \
which can be a slow, lock-holding full-scan operation.";

/// What the violation says to do instead.
pub const SAFE_ALTERNATIVE: &'static str =
    "Add the constraint with NOT VALID first, then validate in a separate migration:\n\n\
1. Add without validation (fast, no full scan):\n   \
ALTER DOMAIN {0} ADD CONSTRAINT {1} CHECK <expr> NOT VALID;\n\n\
2. Validate in a separate migration:\n   \
ALTER DOMAIN {0} VALIDATE CONSTRAINT {1};";

pub struct AddDomainCheckConstraintCheck;

impl Check for AddDomainCheckConstraintCheck {
    open spec fn title(&self) -> Seq<char> {
        "AddDomainCheckConstraintCheck"@
    }

    open spec fn violations(
        &self,
        node: NodeEnum,
        config: Config,
        ctx: ContextView,
    ) -> Seq<ViolationView> {
        match node {
            NodeEnum::AlterDomainStmt(stmt) => match constraint_of(stmt.def) {
                Some(c) if stmt.subtype@ == "C"@ && c.contype == ConstrType::ConstrCheck
                    && c.initially_valid => seq![
                    finding(
                        "ADD CHECK CONSTRAINT TO DOMAIN"@,
                        PROBLEM@,
                        SAFE_ALTERNATIVE@,
                        seq![
                            join(strings_of(stmt.typename@), "."@),
                            name_or(c.conname@, "<unnamed>"@),
                        ],
                    ),
                ],
                _ => Seq::empty(),
            },
            _ => Seq::empty(),
        }
    }

    fn name(&self) -> (r: &str) {
        "AddDomainCheckConstraintCheck"
    }

    fn check(&self, node: &NodeEnum, config: &Config, ctx: &MigrationContext) -> (r: Vec<Violation>) {
        // CREATE DOMAIN is always safe: the domain is new, so no columns use it yet.
        let NodeEnum::AlterDomainStmt(stmt) = node else {
            return no_violations();
        };
        // subtype 'C' = ADD CONSTRAINT
        if !same_text(stmt.subtype.as_str(), "C") {
            return no_violations();
        }
        let Some(c) = def_as_constraint(&stmt.def) else {
            return no_violations();
        };
        if c.contype != ConstrType::ConstrCheck {
            return no_violations();
        }
        // NOT VALID defers validation.
        if !c.initially_valid {
            return no_violations();
        }
        let domain_name = joined_strings(&stmt.typename, ".");
        let constraint_name = constraint_display_name(c);
        let args: Vec<&str> = vec![domain_name.as_str(), constraint_name.as_str()];
        assert(views(args@) =~= seq![domain_name@, constraint_name@]);
        single_violation(
            Violation::from_templates(
                "ADD CHECK CONSTRAINT TO DOMAIN",
                PROBLEM,
                SAFE_ALTERNATIVE,
                &args,
            ),
        )
    }
}

} // verus!
