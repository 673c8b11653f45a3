//! ADD FOREIGN KEY without NOT VALID: scans the whole table and blocks writes meanwhile.

use super::pg_helpers::{
    cmd_def_as_constraint, constraint_display_name, constraint_of, fk_cols_constraint, name_or,
    ref_columns_constraint, ref_table_constraint, strings_of, table_of, ConstrType, NodeEnum,
};
use super::rules::{alter_violations, check_alter, AlterRule};
use super::Check;
use crate::adapters::{ContextView, MigrationContext};
use crate::ast::AlterTableCmd;
use crate::config::Config;
use crate::text::{join, views};
use crate::violation::{finding, Violation, ViolationView};
use vstd::prelude::*;

verus! {

/// What the violation says of the problem.
pub const PROBLEM: &'static str =
    "Adding a foreign key constraint '{1}' on table '{0}' ({2}) without NOT VALID scans the entire table to validate existing rows,\
             acquiring ShareRowExclusiveLock for the duration. On large tables this blocks writes and is a common cause of migration-induced outages.";

/// What the violation says to do instead.
pub const SAFE_ALTERNATIVE: &'static str =
    r"For a safer foreign key addition on large tables:

1. Create a foreign key without any immediate validation:
   ALTER TABLE {0} ADD CONSTRAINT {1}
    FOREIGN KEY ({2}) REFERENCES {3} ({4}) NOT VALID;

2. Step 2 (separate migration, acquires ShareUpdateExclusiveLock only)
  ALTER TABLE {0} VALIDATE CONSTRAINT {1};

Benefits:
- Table remains readable and writable during foreign key creation
- No blocking of SELECT, INSERT, UPDATE, or DELETE operations
- Safe for production deployments on large tables
";

pub struct AddForeignKeyCheck;

impl AlterRule for AddForeignKeyCheck {
    open spec fn rule(&self, table: Seq<char>, cmd: AlterTableCmd) -> Option<ViolationView> {
        match constraint_of(cmd.def) {
            Some(c) if c.contype == ConstrType::ConstrForeign && c.initially_valid => Some(
                finding(
                    "ADD FOREIGN KEY"@,
                    PROBLEM@,
                    SAFE_ALTERNATIVE@,
                    seq![
                        table,
                        name_or(c.conname@, "<unnamed>"@),
                        join(strings_of(c.fk_attrs@), ", "@),
                        table_of(c.pktable),
                        join(strings_of(c.pk_attrs@), ", "@),
                    ],
                ),
            ),
            _ => None,
        }
    }

    fn apply(&self, table: &str, cmd: &AlterTableCmd) -> (r: Option<Violation>) {
        let Some(c) = cmd_def_as_constraint(cmd) else {
            return None;
        };
        if c.contype != ConstrType::ConstrForeign {
            return None;
        }
        if !c.initially_valid {
            return None;
        }
        let constraint_name = constraint_display_name(c);
        let fk_cols = fk_cols_constraint(c);
        let ref_table = ref_table_constraint(c);
        let ref_cols = ref_columns_constraint(c);
        let args: Vec<&str> = vec![
            table,
            constraint_name.as_str(),
            fk_cols.as_str(),
            ref_table.as_str(),
            ref_cols.as_str(),
        ];
        assert(views(args@) =~= seq![
            table@,
            constraint_name@,
            fk_cols@,
            ref_table@,
            ref_cols@,
        ]);
        Some(Violation::from_templates("ADD FOREIGN KEY", PROBLEM, SAFE_ALTERNATIVE, &args))
    }
}

impl Check for AddForeignKeyCheck {
    open spec fn title(&self) -> Seq<char> {
        "AddForeignKeyCheck"@
    }

    open spec fn violations(
        &self,
        node: NodeEnum,
        config: Config,
        ctx: ContextView,
    ) -> Seq<ViolationView> {
        alter_violations(*self, node)
    }

    fn name(&self) -> (r: &str) {
        "AddForeignKeyCheck"
    }

    fn check(&self, node: &NodeEnum, config: &Config, ctx: &MigrationContext) -> (r: Vec<Violation>) {
        check_alter(self, node)
    }
}

} // verus!
