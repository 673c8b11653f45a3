//! ADD COLUMN of a SERIAL type: rewrites the whole table to fill in the sequence values.

use super::pg_helpers::{
    added_column_def, added_column_of, column_type, column_type_name, is_serial_name,
    is_serial_pattern, NodeEnum,
};
use super::rules::{alter_violations, check_alter, AlterRule};
use super::Check;
use crate::adapters::{ContextView, MigrationContext};
use crate::ast::AlterTableCmd;
use crate::config::Config;
use crate::text::views;
use crate::violation::{finding, Violation, ViolationView};
use vstd::prelude::*;

verus! {

/// What the violation says of the problem.
pub const PROBLEM: &'static str =
    "Adding column '{1}' with SERIAL type on table '{0}' requires a full table rewrite to populate sequence values for existing rows, \
                        which acquires an ACCESS EXCLUSIVE lock and blocks all operations. Duration depends on table size and number of indexes.";

/// What the violation says to do instead.
pub const SAFE_ALTERNATIVE: &'static str =
    r"1. Create a sequence:
   CREATE SEQUENCE {0}_{1}_seq;

2. Add the column WITHOUT default (fast, no rewrite):
   ALTER TABLE {0} ADD COLUMN {1} {2};

3. Backfill existing rows in batches (outside migration):
   UPDATE {0} SET {1} = nextval('{0}_{1}_seq') WHERE {1} IS NULL;

4. Set default for future inserts only:
   ALTER TABLE {0} ALTER COLUMN {1} SET DEFAULT nextval('{0}_{1}_seq');

5. Set NOT NULL if needed (Postgres 11+: safe if all values present):
   ALTER TABLE {0} ALTER COLUMN {1} SET NOT NULL;

6. Set sequence ownership:
   ALTER SEQUENCE {0}_{1}_seq OWNED BY {0}.{1};";

pub struct AddSerialColumnCheck;

impl AlterRule for AddSerialColumnCheck {
    open spec fn rule(&self, table: Seq<char>, cmd: AlterTableCmd) -> Option<ViolationView> {
        match added_column_of(cmd) {
            Some(col) if is_serial_name(column_type(col)) => Some(
                finding(
                    "ADD COLUMN with SERIAL"@,
                    PROBLEM@,
                    SAFE_ALTERNATIVE@,
                    seq![table, col.colname@, column_type(col)],
                ),
            ),
            _ => None,
        }
    }

    fn apply(&self, table: &str, cmd: &AlterTableCmd) -> (r: Option<Violation>) {
        let Some(col) = added_column_def(cmd) else {
            return None;
        };
        if !is_serial_pattern(col) {
            return None;
        }
        let serial_type = column_type_name(col);
        let args: Vec<&str> = vec![table, col.colname.as_str(), serial_type.as_str()];
        assert(views(args@) =~= seq![table@, col.colname@, serial_type@]);
        Some(Violation::from_templates("ADD COLUMN with SERIAL", PROBLEM, SAFE_ALTERNATIVE, &args))
    }
}

impl Check for AddSerialColumnCheck {
    open spec fn title(&self) -> Seq<char> {
        "AddSerialColumnCheck"@
    }

    open spec fn violations(
        &self,
        node: NodeEnum,
        config: Config,
        ctx: ContextView,
    ) -> Seq<ViolationView> {
        alter_violations(*self, node)
    }

    fn name(&self) -> (r: &str) {
        "AddSerialColumnCheck"
    }

    fn check(&self, node: &NodeEnum, config: &Config, ctx: &MigrationContext) -> (r: Vec<Violation>) {
        check_alter(self, node)
    }
}

} // verus!
