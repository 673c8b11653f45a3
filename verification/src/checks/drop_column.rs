//! DROP COLUMN: needs an ACCESS EXCLUSIVE lock and breaks code that still reads the column.

use super::pg_helpers::{AlterTableType, NodeEnum};
use super::rules::{alter_violations, check_alter, AlterRule};
use super::{if_exists_clause, if_exists_text, Check};
use crate::adapters::{ContextView, MigrationContext};
use crate::ast::AlterTableCmd;
use crate::config::Config;
use crate::text::views;
use crate::violation::{finding, Violation, ViolationView};
use vstd::prelude::*;

verus! {

/// What the violation says of the problem.
pub const PROBLEM: &'static str =
    "Dropping column '{1}' from table '{0}' requires an ACCESS EXCLUSIVE lock, blocking all operations. \
                        This typically triggers a table rewrite with duration depending on table size.";

/// What the violation says to do instead.
pub const SAFE_ALTERNATIVE: &'static str =
    r"1. Mark the column as unused in your application code first.

2. Deploy the application without the column references.

3. (Optional) Set column to NULL to reclaim space:
   ALTER TABLE {0} ALTER COLUMN {1} DROP NOT NULL;
   UPDATE {0} SET {1} = NULL;

4. Drop the column in a later migration after confirming it's unused:
   ALTER TABLE {0} DROP COLUMN {1}{2};

Note: Postgres doesn't support DROP COLUMN CONCURRENTLY. The rewrite is unavoidable but staging the removal reduces risk.";

pub struct DropColumnCheck;

impl AlterRule for DropColumnCheck {
    open spec fn rule(&self, table: Seq<char>, cmd: AlterTableCmd) -> Option<ViolationView> {
        if cmd.subtype == AlterTableType::AtDropColumn {
            Some(
                finding(
                    "DROP COLUMN"@,
                    PROBLEM@,
                    SAFE_ALTERNATIVE@,
                    seq![table, cmd.name@, if_exists_text(cmd.missing_ok)],
                ),
            )
        } else {
            None
        }
    }

    fn apply(&self, table: &str, cmd: &AlterTableCmd) -> (r: Option<Violation>) {
        if cmd.subtype != AlterTableType::AtDropColumn {
            return None;
        }
        let if_exists = if_exists_clause(cmd.missing_ok);
        let args: Vec<&str> = vec![table, cmd.name.as_str(), if_exists];
        assert(views(args@) =~= seq![table@, cmd.name@, if_exists@]);
        Some(Violation::from_templates("DROP COLUMN", PROBLEM, SAFE_ALTERNATIVE, &args))
    }
}

impl Check for DropColumnCheck {
    open spec fn title(&self) -> Seq<char> {
        "DropColumnCheck"@
    }

    open spec fn violations(
        &self,
        node: NodeEnum,
        config: Config,
        ctx: ContextView,
    ) -> Seq<ViolationView> {
        alter_violations(*self, node)
    }

    fn name(&self) -> (r: &str) {
        "DropColumnCheck"
    }

    fn check(&self, node: &NodeEnum, config: &Config, ctx: &MigrationContext) -> (r: Vec<Violation>) {
        check_alter(self, node)
    }
}

} // verus!
