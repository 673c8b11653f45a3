//! DELETE or UPDATE without WHERE: touches every row of the table.

use super::pg_helpers::{table_name, table_of, NodeEnum};
use super::Check;
use crate::adapters::{ContextView, MigrationContext};
use crate::config::Config;
use crate::ast::RangeVar;
use crate::text::views;
use crate::violation::{
    finding, no_violations, single_violation, violation_views, Violation, ViolationView,
};
use vstd::prelude::*;

verus! {

/// What is said of DELETE.
pub const DELETE_PROBLEM: &'static str =
    "DELETE on '{0}' has no WHERE clause and will remove every row in the \
                        table. This is almost always a mistake in a migration. The lock held for \
                        a full-table delete can cause severe contention on large tables.";

/// What to do instead of DELETE.
pub const DELETE_SAFE_ALTERNATIVE: &'static str =
    "Add a WHERE clause to target only the rows you intend to remove:\n\n\
                        DELETE FROM {0} WHERE <condition>;\n\n\
                        If a full-table delete is intentional, wrap it in a safety-assured block:\n\n  \
                        -- safety-assured:start\n  \
                        -- Safe because: table is a temporary staging table, always empty in production\n  \
                        DELETE FROM {0};\n  \
                        -- safety-assured:end";

/// What is said of UPDATE.
pub const UPDATE_PROBLEM: &'static str =
    "UPDATE on '{0}' has no WHERE clause and will modify every row in the \
                        table. This is almost always a mistake in a migration. A full-table update \
                        holds a ROW EXCLUSIVE lock for the duration and rewrites every row, which \
                        can cause severe contention and bloat on large tables.";

/// What to do instead of UPDATE.
pub const UPDATE_SAFE_ALTERNATIVE: &'static str =
    "Add a WHERE clause to target only the rows you intend to update:\n\n\
                        UPDATE {0} SET ... WHERE <condition>;\n\n\
                        If updating every row is intentional (e.g. a one-time backfill), \
                        add a safety-assured block:\n\n  \
                        -- safety-assured:start\n  \
                        -- Safe because: one-time backfill, table has fewer than 10k rows\n  \
                        UPDATE {0} SET ...;\n  \
                        -- safety-assured:end";

pub struct MutationWithoutWhereCheck;

impl Check for MutationWithoutWhereCheck {
    open spec fn title(&self) -> Seq<char> {
        "MutationWithoutWhereCheck"@
    }

    open spec fn violations(
        &self,
        node: NodeEnum,
        config: Config,
        ctx: ContextView,
    ) -> Seq<ViolationView> {
        match node {
            NodeEnum::DeleteStmt(stmt) if stmt.where_clause is None => seq![
                finding(
                    "DELETE without WHERE"@,
                    DELETE_PROBLEM@,
                    DELETE_SAFE_ALTERNATIVE@,
                    seq![table_of(stmt.relation)],
                ),
            ],
            NodeEnum::UpdateStmt(stmt) if stmt.where_clause is None => seq![
                finding(
                    "UPDATE without WHERE"@,
                    UPDATE_PROBLEM@,
                    UPDATE_SAFE_ALTERNATIVE@,
                    seq![table_of(stmt.relation)],
                ),
            ],
            _ => Seq::empty(),
        }
    }

    fn name(&self) -> (r: &str) {
        "MutationWithoutWhereCheck"
    }

    fn check(&self, node: &NodeEnum, config: &Config, ctx: &MigrationContext) -> (r: Vec<Violation>) {
        match node {
            NodeEnum::DeleteStmt(stmt) => check_mutation(
                stmt.where_clause.is_some(),
                &stmt.relation,
                "DELETE without WHERE",
                DELETE_PROBLEM,
                DELETE_SAFE_ALTERNATIVE,
            ),
            NodeEnum::UpdateStmt(stmt) => check_mutation(
                stmt.where_clause.is_some(),
                &stmt.relation,
                "UPDATE without WHERE",
                UPDATE_PROBLEM,
                UPDATE_SAFE_ALTERNATIVE,
            ),
            _ => no_violations(),
        }
    }
}

fn check_mutation(
    where_clause_present: bool,
    relation: &Option<RangeVar>,
    operation: &str,
    problem: &str,
    safe_alternative: &str,
) -> (r: Vec<Violation>)
    ensures
        violation_views(r@) == if where_clause_present {
            Seq::<ViolationView>::empty()
        } else {
            seq![finding(operation@, problem@, safe_alternative@, seq![table_of(*relation)])]
        },
{
    if where_clause_present {
        return no_violations();
    }
    let table = table_name(relation);
    let args: Vec<&str> = vec![table.as_str()];
    assert(views(args@) =~= seq![table@]);
    single_violation(Violation::from_templates(operation, problem, safe_alternative, &args))
}

} // verus!
