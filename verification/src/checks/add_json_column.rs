//! ADD COLUMN of type JSON: the type has no equality, which breaks DISTINCT, GROUP BY and UNION.

use super::pg_helpers::{
    added_column_def, added_column_of, column_type, column_type_name, is_json_type, NodeEnum,
};
use super::rules::{alter_violations, check_alter, AlterRule};
use super::Check;
use crate::adapters::{ContextView, MigrationContext};
use crate::ast::AlterTableCmd;
use crate::config::Config;
use crate::text::views;
use crate::violation::{finding, Violation, ViolationView};
use vstd::prelude::*;

verus! {

/// What the violation says of the problem.
pub const PROBLEM: &'static str =
    "Adding column '{1}' with JSON type on table '{0}' can break existing SELECT DISTINCT queries. \
                        The JSON type has no equality operator, causing runtime errors for DISTINCT, GROUP BY, and UNION operations.";

/// What the violation says to do instead.
pub const SAFE_ALTERNATIVE: &'static str =
    r"Use JSONB instead of JSON:

   ALTER TABLE {0} ADD COLUMN {1} JSONB;

Benefits of JSONB over JSON:
- Has proper equality and comparison operators (supports DISTINCT, GROUP BY, UNION)
- Supports indexing (GIN indexes for efficient queries)
- Faster to process (binary format, no reparsing)
- Generally better performance for most use cases

Note: The only advantage of JSON over JSONB is that it preserves exact formatting and key order,
which is rarely needed in practice.";

pub struct AddJsonColumnCheck;

impl AlterRule for AddJsonColumnCheck {
    open spec fn rule(&self, table: Seq<char>, cmd: AlterTableCmd) -> Option<ViolationView> {
        match added_column_of(cmd) {
            Some(col) if column_type(col) == "json"@ => Some(
                finding(
                    "ADD COLUMN with JSON type"@,
                    PROBLEM@,
                    SAFE_ALTERNATIVE@,
                    seq![table, col.colname@],
                ),
            ),
            _ => None,
        }
    }

    fn apply(&self, table: &str, cmd: &AlterTableCmd) -> (r: Option<Violation>) {
        let Some(col) = added_column_def(cmd) else {
            return None;
        };
        if !is_json_type(column_type_name(col).as_str()) {
            return None;
        }
        let args: Vec<&str> = vec![table, col.colname.as_str()];
        assert(views(args@) =~= seq![table@, col.colname@]);
        Some(Violation::from_templates("ADD COLUMN with JSON type", PROBLEM, SAFE_ALTERNATIVE, &args))
    }
}

impl Check for AddJsonColumnCheck {
    open spec fn title(&self) -> Seq<char> {
        "AddJsonColumnCheck"@
    }

    open spec fn violations(
        &self,
        node: NodeEnum,
        config: Config,
        ctx: ContextView,
    ) -> Seq<ViolationView> {
        alter_violations(*self, node)
    }

    fn name(&self) -> (r: &str) {
        "AddJsonColumnCheck"
    }

    fn check(&self, node: &NodeEnum, config: &Config, ctx: &MigrationContext) -> (r: Vec<Violation>) {
        check_alter(self, node)
    }
}

} // verus!
