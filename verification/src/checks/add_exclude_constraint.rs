//! ADD CONSTRAINT ... EXCLUDE: scans the whole table, with no NOT VALID to defer the scan.

use super::pg_helpers::{cmd_def_as_constraint, constraint_display_name, constraint_of, name_or, ConstrType, NodeEnum};
use super::rules::{alter_violations, check_alter, AlterRule};
use super::Check;
use crate::adapters::{ContextView, MigrationContext};
use crate::ast::AlterTableCmd;
use crate::config::Config;
use crate::text::views;
use crate::violation::{finding, Violation, ViolationView};
use vstd::prelude::*;

verus! {

/// What the violation says of the problem.
pub const PROBLEM: &'static str =
    "Adding exclusion constraint '{1}' on table '{0}' \
                        scans the entire table while holding a SHARE ROW EXCLUSIVE lock. \
                        Unlike CHECK or FOREIGN KEY constraints, there is no NOT VALID escape hatch — \
                        exclusion constraints must be validated immediately.";

/// What the violation says to do instead.
pub const SAFE_ALTERNATIVE: &'static str =
    r"There is no non-blocking path for adding an exclusion constraint to an existing table.

Options:
- Add the constraint during a low-traffic window and accept the full-table scan cost
- Define the constraint at table creation time to avoid scanning existing rows:
  CREATE TABLE {0} (..., CONSTRAINT {1} EXCLUDE USING <method> (<elements>));
- Use application-level enforcement if the table is too large to lock safely";

pub struct AddExcludeConstraintCheck;

impl AlterRule for AddExcludeConstraintCheck {
    open spec fn rule(&self, table: Seq<char>, cmd: AlterTableCmd) -> Option<ViolationView> {
        match constraint_of(cmd.def) {
            Some(c) if c.contype == ConstrType::ConstrExclusion => Some(
                finding(
                    "ADD EXCLUDE constraint"@,
                    PROBLEM@,
                    SAFE_ALTERNATIVE@,
                    seq![table, name_or(c.conname@, "<unnamed>"@)],
                ),
            ),
            _ => None,
        }
    }

    fn apply(&self, table: &str, cmd: &AlterTableCmd) -> (r: Option<Violation>) {
        let Some(c) = cmd_def_as_constraint(cmd) else {
            return None;
        };
        if c.contype != ConstrType::ConstrExclusion {
            return None;
        }
        let constraint_name = constraint_display_name(c);
        let args: Vec<&str> = vec![table, constraint_name.as_str()];
        assert(views(args@) =~= seq![table@, constraint_name@]);
        Some(Violation::from_templates("ADD EXCLUDE constraint", PROBLEM, SAFE_ALTERNATIVE, &args))
    }
}

impl Check for AddExcludeConstraintCheck {
    open spec fn title(&self) -> Seq<char> {
        "AddExcludeConstraintCheck"@
    }

    open spec fn violations(
        &self,
        node: NodeEnum,
        config: Config,
        ctx: ContextView,
    ) -> Seq<ViolationView> {
        alter_violations(*self, node)
    }

    fn name(&self) -> (r: &str) {
        "AddExcludeConstraintCheck"
    }

    fn check(&self, node: &NodeEnum, config: &Config, ctx: &MigrationContext) -> (r: Vec<Violation>) {
        check_alter(self, node)
    }
}

} // verus!
