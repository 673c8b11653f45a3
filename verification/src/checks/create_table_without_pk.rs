//! CREATE TABLE without a primary key: such a table cannot be replicated logically.

use super::pg_helpers::{
    column_has_constraint, has_constraint, table_name, table_of, ConstrType, NodeEnum,
};
use super::Check;
use crate::adapters::{ContextView, MigrationContext};
use crate::config::Config;
use crate::ast::{CreateStmt, RangeVar};
use crate::text::{same_text, views};
use crate::violation::{finding, no_violations, single_violation, Violation, ViolationView};
use vstd::prelude::*;

verus! {

/// What the violation says of the problem.
pub const PROBLEM: &'static str =
    "Table '{0}' is defined without a primary key. \
                Tables without a primary key cannot use logical replication: replication slots \
                require a primary key or an explicit REPLICA IDENTITY setting. \
                They are also harder to work with — without a PK there is no guaranteed way \
                to uniquely identify a row for updates, deletes, or foreign key references.";

/// What the violation says to do instead.
pub const SAFE_ALTERNATIVE: &'static str =
    r"Add a primary key to the table definition.

Option 1 — identity column (recommended):
   CREATE TABLE {0} (
     id BIGINT GENERATED ALWAYS AS IDENTITY PRIMARY KEY,
     ...
   );

Option 2 — UUID:
   CREATE TABLE {0} (
     id UUID PRIMARY KEY DEFAULT gen_random_uuid(),
     ...
   );

Option 3 — separate constraint:
   CREATE TABLE {0} (
     id BIGINT GENERATED ALWAYS AS IDENTITY,
     ...,
     PRIMARY KEY (id)
   );

If the table is intentionally without a primary key (e.g., a log table where you
will set REPLICA IDENTITY FULL), use a safety-assured block to bypass this check.";

pub struct CreateTableWithoutPkCheck;

/// Whether a relation is temporary.
pub open spec fn is_temporary(relation: Option<RangeVar>) -> bool {
    relation matches Some(rv) && rv.relpersistence@ == "t"@
}

/// Whether a table definition copies another table with LIKE.
pub open spec fn copies_a_table(stmt: CreateStmt) -> bool {
    exists|i: int| 0 <= i < stmt.table_elts@.len() && #[trigger] stmt.table_elts@[i] is TableLikeClause
}

/// Whether a table element defines the primary key, on a column or on the table.
pub open spec fn defines_primary_key(elt: NodeEnum) -> bool {
    match elt {
        NodeEnum::ColumnDef(col) => has_constraint(col, ConstrType::ConstrPrimary),
        NodeEnum::Constraint(c) => c.contype == ConstrType::ConstrPrimary,
        _ => false,
    }
}

/// Whether a table definition has a primary key.
pub open spec fn has_primary_key(stmt: CreateStmt) -> bool {
    exists|i: int| 0 <= i < stmt.table_elts@.len() && defines_primary_key(#[trigger] stmt.table_elts@[i])
}

fn has_like(stmt: &CreateStmt) -> (r: bool)
    ensures
        r == copies_a_table(*stmt),
{
    let mut i: usize = 0;
    while i < stmt.table_elts.len()
        invariant
            i <= stmt.table_elts.len(),
            forall|j: int| 0 <= j < i ==> !(#[trigger] stmt.table_elts@[j] is TableLikeClause),
        decreases stmt.table_elts.len() - i,
    {
        if let NodeEnum::TableLikeClause = &stmt.table_elts[i] {
            assert(stmt.table_elts@[i as int] is TableLikeClause);
            return true;
        }
        i += 1;
    }
    false
}

fn has_pk(stmt: &CreateStmt) -> (r: bool)
    ensures
        r == has_primary_key(*stmt),
{
    let mut i: usize = 0;
    while i < stmt.table_elts.len()
        invariant
            i <= stmt.table_elts.len(),
            forall|j: int| 0 <= j < i ==> !defines_primary_key(#[trigger] stmt.table_elts@[j]),
        decreases stmt.table_elts.len() - i,
    {
        let found = match &stmt.table_elts[i] {
            NodeEnum::ColumnDef(col) => column_has_constraint(col, ConstrType::ConstrPrimary),
            NodeEnum::Constraint(c) => c.contype == ConstrType::ConstrPrimary,
            _ => false,
        };
        if found {
            assert(defines_primary_key(stmt.table_elts@[i as int]));
            return true;
        }
        i += 1;
    }
    false
}

impl Check for CreateTableWithoutPkCheck {
    open spec fn title(&self) -> Seq<char> {
        "CreateTableWithoutPkCheck"@
    }

    open spec fn violations(
        &self,
        node: NodeEnum,
        config: Config,
        ctx: ContextView,
    ) -> Seq<ViolationView> {
        match node {
            NodeEnum::CreateStmt(stmt) if !is_temporary(stmt.relation) && !copies_a_table(stmt)
                && !has_primary_key(stmt) => seq![
                finding(
                    "CREATE TABLE without PRIMARY KEY"@,
                    PROBLEM@,
                    SAFE_ALTERNATIVE@,
                    seq![table_of(stmt.relation)],
                ),
            ],
            _ => Seq::empty(),
        }
    }

    fn name(&self) -> (r: &str) {
        "CreateTableWithoutPkCheck"
    }

    fn check(&self, node: &NodeEnum, config: &Config, ctx: &MigrationContext) -> (r: Vec<Violation>) {
        let NodeEnum::CreateStmt(stmt) = node else {
            return no_violations();
        };
        // Temporary tables are session-scoped and never replicated.
        if let Some(rv) = &stmt.relation {
            if same_text(rv.relpersistence.as_str(), "t") {
                return no_violations();
            }
        }
        // Whether LIKE copies a primary key cannot be known from the statement.
        if has_like(stmt) {
            return no_violations();
        }
        if has_pk(stmt) {
            return no_violations();
        }
        let table = table_name(&stmt.relation);
        let args: Vec<&str> = vec![table.as_str()];
        assert(views(args@) =~= seq![table@]);
        single_violation(
            Violation::from_templates(
                "CREATE TABLE without PRIMARY KEY",
                PROBLEM,
                SAFE_ALTERNATIVE,
                &args,
            ),
        )
    }
}

} // verus!
