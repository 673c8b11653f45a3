//! DROP TABLE and DROP INDEX without IF EXISTS: cannot be retried.

use super::pg_helpers::{NodeEnum, ObjectType};
use super::rules::{behavior_clause, behavior_text, check_dropped, drop_violations, DropRule};
use super::{concurrently_clause, concurrently_text, Check};
use crate::adapters::{ContextView, MigrationContext};
use crate::config::Config;
use crate::ast::DropStmt;
use crate::text::{replace_all, replace_text, views};
use crate::violation::{finding, no_violations, Violation, ViolationView};
use vstd::prelude::*;

verus! {

/// A DROP TABLE that can be retried.
pub const DROP_TABLE_SQL: &'static str =
    "DROP TABLE IF EXISTS {name}{behavior};";

/// A DROP INDEX that can be retried.
pub const DROP_INDEX_SQL: &'static str =
    "DROP INDEX{concurrently} IF EXISTS {name}{behavior};";

/// What the violation says of the problem.
pub const PROBLEM: &'static str =
    "{1} for '{0}' is not idempotent. If this migration is retried after a partial failure, it can error because the object no longer exists.";

/// What the violation says to do instead.
pub const SAFE_ALTERNATIVE: &'static str =
    "Use IF EXISTS to make retries safe:\n   {2}";

pub struct IdempotencyDropCheck;

/// The statement to write instead: the name, the CONCURRENTLY clause and the behavior are put into
/// the template one after the other.
pub open spec fn retriable_sql(
    template: Seq<char>,
    name: Seq<char>,
    concurrently: Seq<char>,
    behavior: Seq<char>,
) -> Seq<char> {
    replace_all(
        replace_all(
            replace_all(template, "{name}"@, name),
            "{concurrently}"@,
            concurrently,
        ),
        "{behavior}"@,
        behavior,
    )
}

fn retriable_statement(template: &str, name: &str, concurrently: &str, behavior: &str) -> (r: String)
    ensures
        r@ == retriable_sql(template@, name@, concurrently@, behavior@),
{
    proof {
        reveal_strlit("{name}");
        reveal_strlit("{concurrently}");
        reveal_strlit("{behavior}");
    }
    let named = replace_text(template, "{name}", name);
    let placed = replace_text(named.as_str(), "{concurrently}", concurrently);
    replace_text(placed.as_str(), "{behavior}", behavior)
}

impl DropRule for IdempotencyDropCheck {
    open spec fn report(
        &self,
        drop_stmt: DropStmt,
        ctx: ContextView,
        name: Seq<char>,
    ) -> ViolationView {
        let operation = if drop_stmt.remove_type == ObjectType::ObjectTable {
            "DROP TABLE without IF EXISTS"@
        } else {
            "DROP INDEX without IF EXISTS"@
        };
        let template = if drop_stmt.remove_type == ObjectType::ObjectTable {
            DROP_TABLE_SQL@
        } else {
            DROP_INDEX_SQL@
        };
        let safe_sql = retriable_sql(
            template,
            name,
            concurrently_text(drop_stmt.concurrent),
            behavior_text(drop_stmt.behavior),
        );
        finding(operation, PROBLEM@, SAFE_ALTERNATIVE@, seq![name, operation, safe_sql])
    }

    fn apply(&self, drop_stmt: &DropStmt, ctx: &MigrationContext, name: &str) -> (r: Violation) {
        let is_table = drop_stmt.remove_type == ObjectType::ObjectTable;
        let operation = if is_table {
            "DROP TABLE without IF EXISTS"
        } else {
            "DROP INDEX without IF EXISTS"
        };
        let template = if is_table {
            DROP_TABLE_SQL
        } else {
            DROP_INDEX_SQL
        };
        let safe_sql = retriable_statement(
            template,
            name,
            concurrently_clause(drop_stmt.concurrent),
            behavior_clause(drop_stmt.behavior),
        );
        let args: Vec<&str> = vec![name, operation, safe_sql.as_str()];
        assert(views(args@) =~= seq![name@, operation@, safe_sql@]);
        Violation::from_templates(operation, PROBLEM, SAFE_ALTERNATIVE, &args)
    }
}

impl Check for IdempotencyDropCheck {
    open spec fn title(&self) -> Seq<char> {
        "IdempotencyDropCheck"@
    }

    open spec fn violations(
        &self,
        node: NodeEnum,
        config: Config,
        ctx: ContextView,
    ) -> Seq<ViolationView> {
        match node {
            NodeEnum::DropStmt(stmt) if !stmt.missing_ok && (stmt.remove_type
                == ObjectType::ObjectTable || stmt.remove_type == ObjectType::ObjectIndex) => {
                drop_violations(*self, stmt, ctx)
            },
            _ => Seq::empty(),
        }
    }

    fn name(&self) -> (r: &str) {
        "IdempotencyDropCheck"
    }

    fn check(&self, node: &NodeEnum, config: &Config, ctx: &MigrationContext) -> (r: Vec<Violation>) {
        let NodeEnum::DropStmt(stmt) = node else {
            return no_violations();
        };
        if stmt.missing_ok {
            return no_violations();
        }
        if stmt.remove_type != ObjectType::ObjectTable && stmt.remove_type
            != ObjectType::ObjectIndex {
            return no_violations();
        }
        check_dropped(self, stmt, ctx)
    }
}

} // verus!
