//! RENAME COLUMN: running code that still uses the old name fails at once.

use super::pg_helpers::{table_name, table_of, NodeEnum, ObjectType};
use super::Check;
use crate::adapters::{ContextView, MigrationContext};
use crate::config::Config;
use crate::text::views;
use crate::violation::{finding, no_violations, single_violation, Violation, ViolationView};
use vstd::prelude::*;

verus! {

/// What the violation says of the problem.
pub const PROBLEM: &'static str =
    "Renaming column '{1}' to '{2}' in table '{0}' will cause immediate errors in running application instances. \
                Any code referencing the old column name will fail after the rename is applied, causing downtime.";

/// What the violation says to do instead.
pub const SAFE_ALTERNATIVE: &'static str =
    r"1. Add a new column with the desired name (allows NULL initially):
   ALTER TABLE {0} ADD COLUMN {2} <data_type>;

2. Backfill the new column with data from the old column:
   UPDATE {0} SET {2} = {1};

3. Add NOT NULL constraint if needed (after backfill):
   ALTER TABLE {0} ALTER COLUMN {2} SET NOT NULL;

4. Update your application code to reference the new column name.

5. Deploy the updated application code.

6. Drop the old column in a subsequent migration:
   ALTER TABLE {0} DROP COLUMN {1};

This approach maintains compatibility with running instances during the transition.";

pub struct RenameColumnCheck;

impl Check for RenameColumnCheck {
    open spec fn title(&self) -> Seq<char> {
        "RenameColumnCheck"@
    }

    open spec fn violations(
        &self,
        node: NodeEnum,
        config: Config,
        ctx: ContextView,
    ) -> Seq<ViolationView> {
        match node {
            NodeEnum::RenameStmt(stmt) if stmt.rename_type == ObjectType::ObjectColumn => seq![
                finding(
                    "RENAME COLUMN"@,
                    PROBLEM@,
                    SAFE_ALTERNATIVE@,
                    seq![table_of(stmt.relation), stmt.subname@, stmt.newname@],
                ),
            ],
            _ => Seq::empty(),
        }
    }

    fn name(&self) -> (r: &str) {
        "RenameColumnCheck"
    }

    fn check(&self, node: &NodeEnum, config: &Config, ctx: &MigrationContext) -> (r: Vec<Violation>) {
        let NodeEnum::RenameStmt(stmt) = node else {
            return no_violations();
        };
        if stmt.rename_type != ObjectType::ObjectColumn {
            return no_violations();
        }
        let table = table_name(&stmt.relation);
        let args: Vec<&str> = vec![table.as_str(), stmt.subname.as_str(), stmt.newname.as_str()];
        assert(views(args@) =~= seq![table@, stmt.subname@, stmt.newname@]);
        single_violation(Violation::from_templates("RENAME COLUMN", PROBLEM, SAFE_ALTERNATIVE, &args))
    }
}

} // verus!
