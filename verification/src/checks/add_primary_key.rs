//! ADD PRIMARY KEY without USING INDEX: builds a unique index while all reads and writes wait.

use super::pg_helpers::{
    cmd_def_as_constraint, constraint_columns_str, constraint_of, name_or, nonempty_or, strings_of,
    ConstrType, NodeEnum,
};
use super::rules::{alter_violations, check_alter, AlterRule};
use super::Check;
use crate::adapters::{ContextView, MigrationContext};
use crate::ast::AlterTableCmd;
use crate::config::Config;
use crate::text::{fill, fill_template, join, views};
use crate::violation::{finding, Violation, ViolationView};
use vstd::prelude::*;

verus! {

/// The name that Postgres gives to the primary key of a table.
pub const PKEY_NAME: &'static str =
    "{0}_pkey";

/// What the violation says of the problem.
pub const PROBLEM: &'static str =
    "Adding PRIMARY KEY constraint '{1}' on table '{0}' ({2}) via ALTER TABLE acquires an ACCESS EXCLUSIVE lock, \
                        blocking all reads and writes. This also implicitly creates a unique index (blocking operation) and validates all rows for uniqueness.";

/// What the violation says to do instead.
pub const SAFE_ALTERNATIVE: &'static str =
    r"Use CREATE UNIQUE INDEX CONCURRENTLY first, then add the constraint:

1. Create the unique index concurrently (no blocking):
   CREATE UNIQUE INDEX CONCURRENTLY {3} ON {0} ({2});

2. Add PRIMARY KEY constraint using the existing index (fast, minimal blocking):
   ALTER TABLE {0} ADD CONSTRAINT {1} PRIMARY KEY USING INDEX {3};

Benefits:
- Table remains readable and writable during index creation
- No blocking of SELECT, INSERT, UPDATE, or DELETE operations
- Index creation can be canceled if needed
- Safe for production deployments on large tables

Considerations:
- Requires Postgres 11+ for PRIMARY KEY USING INDEX
- Cannot run CONCURRENTLY inside a transaction block
  For Diesel migrations: Create metadata.toml with run_in_transaction = false
  For SQLx migrations: Add -- no-transaction directive at the top of the file
- Takes longer than non-concurrent creation
- May fail if duplicate or NULL values exist (leaves behind invalid index that should be dropped)

Note: Ensure all columns in the primary key have NOT NULL constraints before creating the index.";

pub struct AddPrimaryKeyCheck;

impl AlterRule for AddPrimaryKeyCheck {
    open spec fn rule(&self, table: Seq<char>, cmd: AlterTableCmd) -> Option<ViolationView> {
        match constraint_of(cmd.def) {
            Some(c) if c.contype == ConstrType::ConstrPrimary && c.indexname@.len() == 0 => {
                let pkey_name = fill(PKEY_NAME@, seq![table]);
                Some(
                    finding(
                        "ADD PRIMARY KEY"@,
                        PROBLEM@,
                        SAFE_ALTERNATIVE@,
                        seq![
                            table,
                            name_or(c.conname@, pkey_name),
                            join(strings_of(c.keys@), ", "@),
                            pkey_name,
                        ],
                    ),
                )
            },
            _ => None,
        }
    }

    fn apply(&self, table: &str, cmd: &AlterTableCmd) -> (r: Option<Violation>) {
        let Some(c) = cmd_def_as_constraint(cmd) else {
            return None;
        };
        if c.contype != ConstrType::ConstrPrimary {
            return None;
        }
        // A named index means USING INDEX, which is the safe pattern.
        if !c.indexname.as_str().is_empty() {
            return None;
        }
        let cols = constraint_columns_str(c);
        let name_args: Vec<&str> = vec![table];
        assert(views(name_args@) =~= seq![table@]);
        let suggested_index_name = fill_template(PKEY_NAME, &name_args);
        let constraint_name = nonempty_or(c.conname.as_str(), suggested_index_name.as_str());
        let args: Vec<&str> = vec![
            table,
            constraint_name.as_str(),
            cols.as_str(),
            suggested_index_name.as_str(),
        ];
        assert(views(args@) =~= seq![table@, constraint_name@, cols@, suggested_index_name@]);
        Some(Violation::from_templates("ADD PRIMARY KEY", PROBLEM, SAFE_ALTERNATIVE, &args))
    }
}

impl Check for AddPrimaryKeyCheck {
    open spec fn title(&self) -> Seq<char> {
        "AddPrimaryKeyCheck"@
    }

    open spec fn violations(
        &self,
        node: NodeEnum,
        config: Config,
        ctx: ContextView,
    ) -> Seq<ViolationView> {
        alter_violations(*self, node)
    }

    fn name(&self) -> (r: &str) {
        "AddPrimaryKeyCheck"
    }

    fn check(&self, node: &NodeEnum, config: &Config, ctx: &MigrationContext) -> (r: Vec<Violation>) {
        check_alter(self, node)
    }
}

} // verus!
