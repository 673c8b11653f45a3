//! CREATE TABLE without IF NOT EXISTS: cannot be retried.

use super::pg_helpers::{relation_name_or, table_name_or, NodeEnum};
use super::Check;
use crate::adapters::{ContextView, MigrationContext};
use crate::config::Config;
use crate::text::views;
use crate::violation::{finding, no_violations, single_violation, Violation, ViolationView};
use vstd::prelude::*;

verus! {

/// What the violation says of the problem.
pub const PROBLEM: &'static str =
    "CREATE TABLE for '{0}' is not idempotent. If this migration is retried after a partial failure, it can error because the table already exists.";

/// What the violation says to do instead.
pub const SAFE_ALTERNATIVE: &'static str =
    "Use IF NOT EXISTS to make retries safe:\n   CREATE TABLE IF NOT EXISTS {0} (...);";

pub struct IdempotencyCreateCheck;

impl Check for IdempotencyCreateCheck {
    open spec fn title(&self) -> Seq<char> {
        "IdempotencyCreateCheck"@
    }

    open spec fn violations(
        &self,
        node: NodeEnum,
        config: Config,
        ctx: ContextView,
    ) -> Seq<ViolationView> {
        match node {
            NodeEnum::CreateStmt(stmt) if !stmt.if_not_exists => seq![
                finding(
                    "CREATE TABLE without IF NOT EXISTS"@,
                    PROBLEM@,
                    SAFE_ALTERNATIVE@,
                    seq![relation_name_or(stmt.relation, "<table_name>"@)],
                ),
            ],
            _ => Seq::empty(),
        }
    }

    fn name(&self) -> (r: &str) {
        "IdempotencyCreateCheck"
    }

    fn check(&self, node: &NodeEnum, config: &Config, ctx: &MigrationContext) -> (r: Vec<Violation>) {
        let NodeEnum::CreateStmt(stmt) = node else {
            return no_violations();
        };
        if stmt.if_not_exists {
            return no_violations();
        }
        let table = table_name_or(&stmt.relation, "<table_name>");
        let args: Vec<&str> = vec![table.as_str()];
        assert(views(args@) =~= seq![table@]);
        single_violation(
            Violation::from_templates(
                "CREATE TABLE without IF NOT EXISTS",
                PROBLEM,
                SAFE_ALTERNATIVE,
                &args,
            ),
        )
    }
}

} // verus!
