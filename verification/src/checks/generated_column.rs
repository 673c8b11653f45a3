//! ADD COLUMN ... GENERATED ... STORED: rewrites the whole table under an ACCESS EXCLUSIVE lock.

use super::pg_helpers::{
    added_column_def, added_column_of, column_has_constraint, column_type, column_type_name,
    has_constraint, ConstrType, NodeEnum,
};
use super::rules::{alter_violations, check_alter, AlterRule};
use super::Check;
use crate::adapters::{ContextView, MigrationContext};
use crate::ast::AlterTableCmd;
use crate::config::Config;
use crate::text::views;
use crate::violation::{finding, Violation, ViolationView};
use vstd::prelude::*;

verus! {

/// What the violation says of the problem.
pub const PROBLEM: &'static str =
    "Adding column '{1}' with GENERATED ALWAYS AS ... STORED on table '{0}' \
                        triggers a full table rewrite because Postgres must compute and store the expression \
                        value for every existing row. This acquires an ACCESS EXCLUSIVE lock and blocks all operations. \
                        Duration depends on table size.";

/// What the violation says to do instead.
pub const SAFE_ALTERNATIVE: &'static str =
    r"1. Add a regular nullable column instead:
   ALTER TABLE {0} ADD COLUMN {1} {2};

2. Backfill values in batches (outside migration):
   UPDATE {0} SET {1} = <expression> WHERE {1} IS NULL;

3. Optionally add NOT NULL constraint:
   ALTER TABLE {0} ALTER COLUMN {1} SET NOT NULL;

4. Use a trigger to compute values for new rows:
   CREATE FUNCTION compute_{1}() RETURNS TRIGGER AS $$
   BEGIN
     NEW.{1} := <expression>;
     RETURN NEW;
   END;
   $$ LANGUAGE plpgsql;

   CREATE TRIGGER trg_{1}
   BEFORE INSERT OR UPDATE ON {0}
   FOR EACH ROW EXECUTE FUNCTION compute_{1}();

5. If the table rewrite is acceptable (e.g., small table or maintenance window),
   use a safety-assured block:
   -- safety-assured:start
   ALTER TABLE {0} ADD COLUMN {1} {2} GENERATED ALWAYS AS (<expression>) STORED;
   -- safety-assured:end

Note: Postgres does not support VIRTUAL generated columns (only STORED).
For new empty tables, GENERATED STORED columns are acceptable.";

pub struct GeneratedColumnCheck;

impl AlterRule for GeneratedColumnCheck {
    open spec fn rule(&self, table: Seq<char>, cmd: AlterTableCmd) -> Option<ViolationView> {
        match added_column_of(cmd) {
            Some(col) if has_constraint(col, ConstrType::ConstrGenerated) => Some(
                finding(
                    "ADD COLUMN with GENERATED STORED"@,
                    PROBLEM@,
                    SAFE_ALTERNATIVE@,
                    seq![table, col.colname@, column_type(col)],
                ),
            ),
            _ => None,
        }
    }

    fn apply(&self, table: &str, cmd: &AlterTableCmd) -> (r: Option<Violation>) {
        let Some(col) = added_column_def(cmd) else {
            return None;
        };
        if !column_has_constraint(col, ConstrType::ConstrGenerated) {
            return None;
        }
        let data_type = column_type_name(col);
        let args: Vec<&str> = vec![table, col.colname.as_str(), data_type.as_str()];
        assert(views(args@) =~= seq![table@, col.colname@, data_type@]);
        Some(
            Violation::from_templates(
                "ADD COLUMN with GENERATED STORED",
                PROBLEM,
                SAFE_ALTERNATIVE,
                &args,
            ),
        )
    }
}

impl Check for GeneratedColumnCheck {
    open spec fn title(&self) -> Seq<char> {
        "GeneratedColumnCheck"@
    }

    open spec fn violations(
        &self,
        node: NodeEnum,
        config: Config,
        ctx: ContextView,
    ) -> Seq<ViolationView> {
        alter_violations(*self, node)
    }

    fn name(&self) -> (r: &str) {
        "GeneratedColumnCheck"
    }

    fn check(&self, node: &NodeEnum, config: &Config, ctx: &MigrationContext) -> (r: Vec<Violation>) {
        check_alter(self, node)
    }
}

} // verus!
