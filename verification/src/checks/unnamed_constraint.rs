//! Constraints without a name: Postgres generates one, which later migrations have to guess.

use super::pg_helpers::{
    cmd_def_as_constraint, constraint_columns_str, constraint_of, fk_cols_constraint,
    ref_columns_constraint, ref_table_constraint, strings_of, table_of, ConstrType, NodeEnum,
};
use super::rules::{alter_violations, check_alter, AlterRule};
use super::Check;
use crate::adapters::{ContextView, MigrationContext};
use crate::ast::{AlterTableCmd, Constraint};
use crate::config::Config;
use crate::text::{fill, fill_template, join, views};
use crate::violation::{finding, Violation, ViolationView};
use vstd::prelude::*;

verus! {

/// The columns of a foreign key and what they refer to.
pub const FOREIGN_KEY_COLUMNS: &'static str =
    "({0}) REFERENCES {1}({2})";

/// What the violation says of the problem.
pub const PROBLEM: &'static str =
    "Adding unnamed {1} constraint on table '{0}' will receive an auto-generated name from Postgres. \
                        This makes future migrations difficult, as the generated name varies between databases and requires querying \
                        the database to find the constraint name before modifying or dropping it.";

/// What the violation says to do instead.
pub const SAFE_ALTERNATIVE: &'static str =
    r"Always name constraints explicitly using the CONSTRAINT keyword:

Instead of:
   ALTER TABLE {0} ADD {1} {2};

Use:
   ALTER TABLE {0} ADD CONSTRAINT {0}_{3} {1} {2};

Named constraints make future migrations predictable and maintainable:
   -- Easy to reference in later migrations
   ALTER TABLE {0} DROP CONSTRAINT {0}_{3};

Note: Choose descriptive names that indicate the table, columns, and constraint type.
Common patterns:
  - UNIQUE: {0}_<column>_key or {0}_<column1>_<column2>_key
  - FOREIGN KEY: {0}_<column>_fkey
  - CHECK: {0}_<column>_check or {0}_<description>_check";

pub struct UnnamedConstraintCheck;

/// How a constraint is described: its kind, its columns, and the end of a suggested name.
pub struct Described {
    pub kind: Seq<char>,
    pub columns: Seq<char>,
    pub suggested_name: Seq<char>,
}

/// The description of a constraint of one of the kinds that are reported.
pub open spec fn described(c: Constraint) -> Option<Described> {
    match c.contype {
        ConstrType::ConstrUnique => Some(
            Described {
                kind: "UNIQUE"@,
                columns: join(strings_of(c.keys@), ", "@),
                suggested_name: "column_key"@,
            },
        ),
        ConstrType::ConstrForeign => Some(
            Described {
                kind: "FOREIGN KEY"@,
                columns: fill(
                    FOREIGN_KEY_COLUMNS@,
                    seq![
                        join(strings_of(c.fk_attrs@), ", "@),
                        table_of(c.pktable),
                        join(strings_of(c.pk_attrs@), ", "@),
                    ],
                ),
                suggested_name: "column_fkey"@,
            },
        ),
        ConstrType::ConstrCheck => Some(
            Described {
                kind: "CHECK"@,
                columns: "(...)"@,
                suggested_name: "column_check"@,
            },
        ),
        _ => None,
    }
}

impl AlterRule for UnnamedConstraintCheck {
    open spec fn rule(&self, table: Seq<char>, cmd: AlterTableCmd) -> Option<ViolationView> {
        match constraint_of(cmd.def) {
            Some(c) if c.conname@.len() == 0 => match described(c) {
                Some(d) => Some(
                    finding(
                        "CONSTRAINT without name"@,
                        PROBLEM@,
                        SAFE_ALTERNATIVE@,
                        seq![table, d.kind, d.columns, d.suggested_name],
                    ),
                ),
                None => None,
            },
            _ => None,
        }
    }

    fn apply(&self, table: &str, cmd: &AlterTableCmd) -> (r: Option<Violation>) {
        let Some(c) = cmd_def_as_constraint(cmd) else {
            return None;
        };
        // Only check unnamed constraints
        if !c.conname.as_str().is_empty() {
            return None;
        }
        let kind;
        let columns;
        let suggested_name;
        match c.contype {
            ConstrType::ConstrUnique => {
                kind = "UNIQUE";
                columns = constraint_columns_str(c);
                suggested_name = "column_key";
            },
            ConstrType::ConstrForeign => {
                // FK columns are in fk_attrs, not keys
                let fk_cols = fk_cols_constraint(c);
                let ref_table = ref_table_constraint(c);
                let ref_cols = ref_columns_constraint(c);
                let args: Vec<&str> = vec![fk_cols.as_str(), ref_table.as_str(), ref_cols.as_str()];
                assert(views(args@) =~= seq![fk_cols@, ref_table@, ref_cols@]);
                kind = "FOREIGN KEY";
                columns = fill_template(FOREIGN_KEY_COLUMNS, &args);
                suggested_name = "column_fkey";
            },
            ConstrType::ConstrCheck => {
                kind = "CHECK";
                columns = "(...)".to_string();
                suggested_name = "column_check";
            },
            _ => {
                return None;
            },
        }
        let args: Vec<&str> = vec![table, kind, columns.as_str(), suggested_name];
        assert(views(args@) =~= seq![table@, kind@, columns@, suggested_name@]);
        Some(Violation::from_templates("CONSTRAINT without name", PROBLEM, SAFE_ALTERNATIVE, &args))
    }
}

impl Check for UnnamedConstraintCheck {
    open spec fn title(&self) -> Seq<char> {
        "UnnamedConstraintCheck"@
    }

    open spec fn violations(
        &self,
        node: NodeEnum,
        config: Config,
        ctx: ContextView,
    ) -> Seq<ViolationView> {
        alter_violations(*self, node)
    }

    fn name(&self) -> (r: &str) {
        "UnnamedConstraintCheck"
    }

    fn check(&self, node: &NodeEnum, config: &Config, ctx: &MigrationContext) -> (r: Vec<Violation>) {
        check_alter(self, node)
    }
}

} // verus!
