//! CREATE INDEX without IF NOT EXISTS: cannot be retried.

use super::pg_helpers::{name_or, nonempty_or, relation_name_or, table_name_or, NodeEnum};
use super::{concurrently_clause, concurrently_text, Check};
use crate::adapters::{ContextView, MigrationContext};
use crate::config::Config;
use crate::text::views;
use crate::violation::{finding, no_violations, single_violation, Violation, ViolationView};
use vstd::prelude::*;

verus! {

/// What the violation says of the problem.
pub const PROBLEM: &'static str =
    "CREATE INDEX '{1}' on table '{0}' is not idempotent. If this migration is retried after a partial failure, it can error because the index already exists.";

/// What the violation says to do instead.
pub const SAFE_ALTERNATIVE: &'static str =
    "Use IF NOT EXISTS to make retries safe:\n   CREATE INDEX{3} IF NOT EXISTS {2} ON {0} (...);";

pub struct IdempotencyIndexCheck;

impl Check for IdempotencyIndexCheck {
    open spec fn title(&self) -> Seq<char> {
        "IdempotencyIndexCheck"@
    }

    open spec fn violations(
        &self,
        node: NodeEnum,
        config: Config,
        ctx: ContextView,
    ) -> Seq<ViolationView> {
        match node {
            NodeEnum::IndexStmt(stmt) if !stmt.if_not_exists => seq![
                finding(
                    "CREATE INDEX without IF NOT EXISTS"@,
                    PROBLEM@,
                    SAFE_ALTERNATIVE@,
                    seq![
                        relation_name_or(stmt.relation, "<table_name>"@),
                        name_or(stmt.idxname@, "<unnamed>"@),
                        name_or(stmt.idxname@, "<index_name>"@),
                        concurrently_text(stmt.concurrent),
                    ],
                ),
            ],
            _ => Seq::empty(),
        }
    }

    fn name(&self) -> (r: &str) {
        "IdempotencyIndexCheck"
    }

    fn check(&self, node: &NodeEnum, config: &Config, ctx: &MigrationContext) -> (r: Vec<Violation>) {
        let NodeEnum::IndexStmt(stmt) = node else {
            return no_violations();
        };
        if stmt.if_not_exists {
            return no_violations();
        }
        let table = table_name_or(&stmt.relation, "<table_name>");
        let index = nonempty_or(stmt.idxname.as_str(), "<unnamed>");
        let suggested_index_name = nonempty_or(stmt.idxname.as_str(), "<index_name>");
        let concurrently = concurrently_clause(stmt.concurrent);
        let args: Vec<&str> = vec![
            table.as_str(),
            index.as_str(),
            suggested_index_name.as_str(),
            concurrently,
        ];
        assert(views(args@) =~= seq![table@, index@, suggested_index_name@, concurrently@]);
        single_violation(
            Violation::from_templates(
                "CREATE INDEX without IF NOT EXISTS",
                PROBLEM,
                SAFE_ALTERNATIVE,
                &args,
            ),
        )
    }
}

} // verus!
