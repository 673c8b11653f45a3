//! SET NOT NULL: scans the whole table under an ACCESS EXCLUSIVE lock.

use super::pg_helpers::{AlterTableType, NodeEnum};
use super::rules::{alter_violations, check_alter, AlterRule};
use super::Check;
use crate::adapters::{ContextView, MigrationContext};
use crate::ast::AlterTableCmd;
use crate::config::Config;
use crate::text::views;
use crate::violation::{finding, Violation, ViolationView};
use vstd::prelude::*;

verus! {

/// What the violation says of the problem.
pub const PROBLEM: &'static str =
    "Adding NOT NULL constraint to column '{1}' on table '{0}' requires a full table scan to verify \
                        all values are non-null, acquiring an ACCESS EXCLUSIVE lock and blocking all operations. \
                        Duration depends on table size.";

/// What the violation says to do instead.
pub const SAFE_ALTERNATIVE: &'static str =
    r"For safer constraint addition on large tables:

1. Add a CHECK constraint without validating existing rows:
   ALTER TABLE {0} ADD CONSTRAINT {1}_not_null CHECK ({1} IS NOT NULL) NOT VALID;

2. Validate the constraint separately (uses SHARE UPDATE EXCLUSIVE lock):
   ALTER TABLE {0} VALIDATE CONSTRAINT {1}_not_null;

3. Add the NOT NULL constraint (instant if CHECK constraint exists):
   ALTER TABLE {0} ALTER COLUMN {1} SET NOT NULL;

4. Optionally drop the redundant CHECK constraint:
   ALTER TABLE {0} DROP CONSTRAINT {1}_not_null;

Note: The VALIDATE step allows concurrent reads and writes, only blocking other schema changes. On Postgres 12+, NOT NULL constraints are more efficient, but the CHECK approach still provides better control over large migrations.";

pub struct AddNotNullCheck;

impl AlterRule for AddNotNullCheck {
    open spec fn rule(&self, table: Seq<char>, cmd: AlterTableCmd) -> Option<ViolationView> {
        if cmd.subtype == AlterTableType::AtSetNotNull {
            Some(
                finding(
                    "ADD NOT NULL constraint"@,
                    PROBLEM@,
                    SAFE_ALTERNATIVE@,
                    seq![table, cmd.name@],
                ),
            )
        } else {
            None
        }
    }

    fn apply(&self, table: &str, cmd: &AlterTableCmd) -> (r: Option<Violation>) {
        if cmd.subtype != AlterTableType::AtSetNotNull {
            return None;
        }
        let args: Vec<&str> = vec![table, cmd.name.as_str()];
        assert(views(args@) =~= seq![table@, cmd.name@]);
        Some(Violation::from_templates("ADD NOT NULL constraint", PROBLEM, SAFE_ALTERNATIVE, &args))
    }
}

impl Check for AddNotNullCheck {
    open spec fn title(&self) -> Seq<char> {
        "AddNotNullCheck"@
    }

    open spec fn violations(
        &self,
        node: NodeEnum,
        config: Config,
        ctx: ContextView,
    ) -> Seq<ViolationView> {
        alter_violations(*self, node)
    }

    fn name(&self) -> (r: &str) {
        "AddNotNullCheck"
    }

    fn check(&self, node: &NodeEnum, config: &Config, ctx: &MigrationContext) -> (r: Vec<Violation>) {
        check_alter(self, node)
    }
}

} // verus!
