//! ADD COLUMN without IF NOT EXISTS and DROP COLUMN without IF EXISTS: cannot be retried.

use super::pg_helpers::{cmd_def_as_column_def, column_of, AlterTableType, NodeEnum};
use super::rules::{alter_violations, check_alter, AlterRule};
use super::Check;
use crate::adapters::{ContextView, MigrationContext};
use crate::ast::AlterTableCmd;
use crate::config::Config;
use crate::text::views;
use crate::violation::{finding, Violation, ViolationView};
use vstd::prelude::*;

verus! {

/// What is said of ADD COLUMN.
pub const ADD_PROBLEM: &'static str =
    "ALTER TABLE ADD COLUMN for '{0}.{1}' is not idempotent. If this migration is retried after a partial failure, it can error because the column already exists.";

/// What to write instead of ADD COLUMN.
pub const ADD_SAFE_ALTERNATIVE: &'static str =
    "Use IF NOT EXISTS to make retries safe:\n   ALTER TABLE {0} ADD COLUMN IF NOT EXISTS {1} <type>;";

/// What is said of DROP COLUMN.
pub const DROP_PROBLEM: &'static str =
    "ALTER TABLE DROP COLUMN for '{0}.{1}' is not idempotent. If this migration is retried after a partial failure, it can error because the column no longer exists.";

/// What to write instead of DROP COLUMN.
pub const DROP_SAFE_ALTERNATIVE: &'static str =
    "Use IF EXISTS to make retries safe:\n   ALTER TABLE {0} DROP COLUMN IF EXISTS {1};";

pub struct IdempotencyAlterCheck;

impl AlterRule for IdempotencyAlterCheck {
    open spec fn rule(&self, table: Seq<char>, cmd: AlterTableCmd) -> Option<ViolationView> {
        if cmd.subtype == AlterTableType::AtAddColumn {
            match column_of(cmd) {
                Some(col) if col.colname@.len() > 0 && !cmd.missing_ok => Some(
                    finding(
                        "ADD COLUMN without IF NOT EXISTS"@,
                        ADD_PROBLEM@,
                        ADD_SAFE_ALTERNATIVE@,
                        seq![table, col.colname@],
                    ),
                ),
                _ => None,
            }
        } else if cmd.subtype == AlterTableType::AtDropColumn && !cmd.missing_ok {
            Some(
                finding(
                    "DROP COLUMN without IF EXISTS"@,
                    DROP_PROBLEM@,
                    DROP_SAFE_ALTERNATIVE@,
                    seq![table, cmd.name@],
                ),
            )
        } else {
            None
        }
    }

    fn apply(&self, table: &str, cmd: &AlterTableCmd) -> (r: Option<Violation>) {
        if cmd.subtype == AlterTableType::AtAddColumn {
            let Some(col) = cmd_def_as_column_def(cmd) else {
                return None;
            };
            if col.colname.as_str().is_empty() || cmd.missing_ok {
                return None;
            }
            let args: Vec<&str> = vec![table, col.colname.as_str()];
            assert(views(args@) =~= seq![table@, col.colname@]);
            return Some(
                Violation::from_templates(
                    "ADD COLUMN without IF NOT EXISTS",
                    ADD_PROBLEM,
                    ADD_SAFE_ALTERNATIVE,
                    &args,
                ),
            );
        }
        // DROP COLUMN defines nothing: only the subtype tells it.
        if cmd.subtype == AlterTableType::AtDropColumn && !cmd.missing_ok {
            let args: Vec<&str> = vec![table, cmd.name.as_str()];
            assert(views(args@) =~= seq![table@, cmd.name@]);
            return Some(
                Violation::from_templates(
                    "DROP COLUMN without IF EXISTS",
                    DROP_PROBLEM,
                    DROP_SAFE_ALTERNATIVE,
                    &args,
                ),
            );
        }
        None
    }
}

impl Check for IdempotencyAlterCheck {
    open spec fn title(&self) -> Seq<char> {
        "IdempotencyAlterCheck"@
    }

    open spec fn violations(
        &self,
        node: NodeEnum,
        config: Config,
        ctx: ContextView,
    ) -> Seq<ViolationView> {
        alter_violations(*self, node)
    }

    fn name(&self) -> (r: &str) {
        "IdempotencyAlterCheck"
    }

    fn check(&self, node: &NodeEnum, config: &Config, ctx: &MigrationContext) -> (r: Vec<Violation>) {
        check_alter(self, node)
    }
}

} // verus!
