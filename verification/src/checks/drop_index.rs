//! DROP INDEX without CONCURRENTLY: blocks all queries on the table.

use super::pg_helpers::{concurrent_advice, concurrent_safe_alternative, NodeEnum, ObjectType};
use super::rules::{check_dropped, drop_violations, DropRule};
use super::{if_exists_clause, if_exists_text, Check};
use crate::adapters::{ContextView, MigrationContext};
use crate::config::Config;
use crate::ast::DropStmt;
use crate::text::{fill, fill_template, views};
use crate::violation::{no_violations, Violation, ViolationView};
use vstd::prelude::*;

verus! {

/// What to do instead.
pub const SUGGESTION: &'static str =
    r#"Use CONCURRENTLY to drop the index without blocking queries:
   DROP INDEX CONCURRENTLY{1} {0};

Note: CONCURRENTLY requires Postgres 9.2+.

Considerations:
- Takes longer to complete than regular DROP INDEX
- Allows concurrent SELECT, INSERT, UPDATE, DELETE operations
- If it fails, the index may be marked "invalid" and should be dropped again
- Cannot be rolled back (no transaction support)"#;

/// What is said of DROP INDEX without CONCURRENTLY.
pub const PROBLEM: &'static str =
    "Dropping index '{0}'{1} without CONCURRENTLY acquires an ACCESS EXCLUSIVE lock, blocking all \
                            queries (SELECT, INSERT, UPDATE, DELETE) on the table until complete. Duration depends on system load and concurrent transactions.";

/// What is said of DROP INDEX CONCURRENTLY inside a transaction.
pub const TRANSACTION_PROBLEM: &'static str =
    "Dropping index '{0}'{1} with CONCURRENTLY cannot run inside a transaction block. \
                        PostgreSQL will raise an error at runtime.";

pub struct DropIndexCheck;

impl DropRule for DropIndexCheck {
    open spec fn report(
        &self,
        drop_stmt: DropStmt,
        ctx: ContextView,
        name: Seq<char>,
    ) -> ViolationView {
        let args = seq![name, if_exists_text(drop_stmt.missing_ok)];
        if !drop_stmt.concurrent {
            ViolationView::new(
                "DROP INDEX without CONCURRENTLY"@,
                fill(PROBLEM@, args),
                concurrent_advice(fill(SUGGESTION@, args), ctx),
            )
        } else {
            ViolationView::new(
                "DROP INDEX CONCURRENTLY inside a transaction"@,
                fill(TRANSACTION_PROBLEM@, args),
                ctx.no_transaction_hint,
            )
        }
    }

    fn apply(&self, drop_stmt: &DropStmt, ctx: &MigrationContext, name: &str) -> (r: Violation) {
        let if_exists = if_exists_clause(drop_stmt.missing_ok);
        let args: Vec<&str> = vec![name, if_exists];
        assert(views(args@) =~= seq![name@, if_exists@]);
        if !drop_stmt.concurrent {
            let suggestion = fill_template(SUGGESTION, &args);
            let safe_alternative = concurrent_safe_alternative(suggestion, ctx);
            Violation::new(
                "DROP INDEX without CONCURRENTLY",
                fill_template(PROBLEM, &args).as_str(),
                safe_alternative.as_str(),
            )
        } else {
            Violation::new(
                "DROP INDEX CONCURRENTLY inside a transaction",
                fill_template(TRANSACTION_PROBLEM, &args).as_str(),
                ctx.no_transaction_hint,
            )
        }
    }
}

impl Check for DropIndexCheck {
    open spec fn title(&self) -> Seq<char> {
        "DropIndexCheck"@
    }

    open spec fn violations(
        &self,
        node: NodeEnum,
        config: Config,
        ctx: ContextView,
    ) -> Seq<ViolationView> {
        match node {
            NodeEnum::DropStmt(stmt) if stmt.remove_type == ObjectType::ObjectIndex && (
            !stmt.concurrent || ctx.run_in_transaction) => drop_violations(*self, stmt, ctx),
            _ => Seq::empty(),
        }
    }

    fn name(&self) -> (r: &str) {
        "DropIndexCheck"
    }

    fn check(&self, node: &NodeEnum, config: &Config, ctx: &MigrationContext) -> (r: Vec<Violation>) {
        let NodeEnum::DropStmt(stmt) = node else {
            return no_violations();
        };
        if stmt.remove_type != ObjectType::ObjectIndex {
            return no_violations();
        }
        // DROP INDEX CONCURRENTLY is safe only outside a transaction.
        if stmt.concurrent && !ctx.run_in_transaction {
            return no_violations();
        }
        check_dropped(self, stmt, ctx)
    }
}

} // verus!
