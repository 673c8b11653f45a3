//! DROP TABLE: deletes the table and its data for good.

use super::pg_helpers::{NodeEnum, ObjectType};
use super::rules::{behavior_clause, behavior_text, check_dropped, drop_violations, DropRule};
use super::{if_exists_clause, if_exists_text, Check};
use crate::adapters::{ContextView, MigrationContext};
use crate::config::Config;
use crate::ast::DropStmt;
use crate::text::views;
use crate::violation::{finding, no_violations, Violation, ViolationView};
use vstd::prelude::*;

verus! {

/// What the violation says of the problem.
pub const PROBLEM: &'static str =
    "Dropping table '{0}' permanently deletes all data and acquires an ACCESS EXCLUSIVE lock. \
                        This operation cannot be undone after the transaction commits.";

/// What the violation says to do instead.
pub const SAFE_ALTERNATIVE: &'static str =
    r"Before dropping a table in production:

1. Verify this is intentional and the table is no longer in use
2. Ensure a backup exists or data has been migrated
3. Check for foreign key dependencies that may block the drop

If this drop is intentional, wrap it in a safety-assured block:
   -- safety-assured:start
   DROP TABLE{1} {0}{2};
   -- safety-assured:end

Note: DROP TABLE acquires ACCESS EXCLUSIVE lock, blocking all operations until complete.";

pub struct DropTableCheck;

impl DropRule for DropTableCheck {
    open spec fn report(
        &self,
        drop_stmt: DropStmt,
        ctx: ContextView,
        name: Seq<char>,
    ) -> ViolationView {
        finding(
            "DROP TABLE"@,
            PROBLEM@,
            SAFE_ALTERNATIVE@,
            seq![name, if_exists_text(drop_stmt.missing_ok), behavior_text(drop_stmt.behavior)],
        )
    }

    fn apply(&self, drop_stmt: &DropStmt, ctx: &MigrationContext, name: &str) -> (r: Violation) {
        let if_exists = if_exists_clause(drop_stmt.missing_ok);
        let modifiers = behavior_clause(drop_stmt.behavior);
        let args: Vec<&str> = vec![name, if_exists, modifiers];
        assert(views(args@) =~= seq![name@, if_exists@, modifiers@]);
        Violation::from_templates("DROP TABLE", PROBLEM, SAFE_ALTERNATIVE, &args)
    }
}

impl Check for DropTableCheck {
    open spec fn title(&self) -> Seq<char> {
        "DropTableCheck"@
    }

    open spec fn violations(
        &self,
        node: NodeEnum,
        config: Config,
        ctx: ContextView,
    ) -> Seq<ViolationView> {
        match node {
            NodeEnum::DropStmt(stmt) if stmt.remove_type == ObjectType::ObjectTable => {
                drop_violations(*self, stmt, ctx)
            },
            _ => Seq::empty(),
        }
    }

    fn name(&self) -> (r: &str) {
        "DropTableCheck"
    }

    fn check(&self, node: &NodeEnum, config: &Config, ctx: &MigrationContext) -> (r: Vec<Violation>) {
        let NodeEnum::DropStmt(stmt) = node else {
            return no_violations();
        };
        if stmt.remove_type != ObjectType::ObjectTable {
            return no_violations();
        }
        check_dropped(self, stmt, ctx)
    }
}

} // verus!
