//! REFRESH MATERIALIZED VIEW without CONCURRENTLY: blocks reads until the view is rebuilt.

use super::pg_helpers::{
    concurrent_advice, concurrent_safe_alternative, table_name, table_of, NodeEnum,
};
use super::Check;
use crate::adapters::{ContextView, MigrationContext};
use crate::config::Config;
use crate::text::{fill, fill_template, views};
use crate::violation::{no_violations, single_violation, Violation, ViolationView};
use vstd::prelude::*;

verus! {

/// What to do instead.
pub const SUGGESTION: &'static str =
    r#"Use CONCURRENTLY to refresh the view without blocking reads:
   REFRESH MATERIALIZED VIEW CONCURRENTLY {0};

Note: CONCURRENTLY takes longer and requires a unique index on the materialized view. Without a unique index, PostgreSQL will refuse the CONCURRENTLY option.

Considerations:
- Requires a unique index on the view (e.g. CREATE UNIQUE INDEX ON {0}(id);)
- Takes longer to complete than a non-concurrent refresh
- If it fails, the view data remains unchanged — no "partial" refresh state"#;

/// What is said of a refresh without CONCURRENTLY.
pub const PROBLEM: &'static str =
    "Refreshing materialized view '{0}' without CONCURRENTLY acquires an \
                    AccessExclusiveLock, blocking all reads (SELECT) for the duration of the refresh. \
                    Duration depends on view complexity and underlying data size.";

/// What is said of a refresh with CONCURRENTLY inside a transaction.
pub const TRANSACTION_PROBLEM: &'static str =
    "Refreshing materialized view '{0}' with CONCURRENTLY cannot run inside a \
                transaction block. PostgreSQL will raise an error at runtime.";

pub struct RefreshMatViewCheck;

impl Check for RefreshMatViewCheck {
    open spec fn title(&self) -> Seq<char> {
        "RefreshMatViewCheck"@
    }

    open spec fn violations(
        &self,
        node: NodeEnum,
        config: Config,
        ctx: ContextView,
    ) -> Seq<ViolationView> {
        match node {
            NodeEnum::RefreshMatViewStmt(stmt) => {
                let args = seq![table_of(stmt.relation)];
                if !stmt.concurrent {
                    seq![
                        ViolationView::new(
                            "REFRESH MATERIALIZED VIEW without CONCURRENTLY"@,
                            fill(PROBLEM@, args),
                            concurrent_advice(fill(SUGGESTION@, args), ctx),
                        ),
                    ]
                } else if ctx.run_in_transaction {
                    seq![
                        ViolationView::new(
                            "REFRESH MATERIALIZED VIEW CONCURRENTLY inside a transaction"@,
                            fill(TRANSACTION_PROBLEM@, args),
                            ctx.no_transaction_hint,
                        ),
                    ]
                } else {
                    Seq::empty()
                }
            },
            _ => Seq::empty(),
        }
    }

    fn name(&self) -> (r: &str) {
        "RefreshMatViewCheck"
    }

    fn check(&self, node: &NodeEnum, config: &Config, ctx: &MigrationContext) -> (r: Vec<Violation>) {
        let NodeEnum::RefreshMatViewStmt(stmt) = node else {
            return no_violations();
        };
        let view_name = table_name(&stmt.relation);
        let args: Vec<&str> = vec![view_name.as_str()];
        assert(views(args@) =~= seq![view_name@]);

        if !stmt.concurrent {
            let suggestion = fill_template(SUGGESTION, &args);
            let safe_alternative = concurrent_safe_alternative(suggestion, ctx);
            return single_violation(
                Violation::new(
                    "REFRESH MATERIALIZED VIEW without CONCURRENTLY",
                    fill_template(PROBLEM, &args).as_str(),
                    safe_alternative.as_str(),
                ),
            );
        }
        // REFRESH MATERIALIZED VIEW CONCURRENTLY is safe only outside a transaction.
        if !ctx.run_in_transaction {
            return no_violations();
        }
        single_violation(
            Violation::new(
                "REFRESH MATERIALIZED VIEW CONCURRENTLY inside a transaction",
                fill_template(TRANSACTION_PROBLEM, &args).as_str(),
                ctx.no_transaction_hint,
            ),
        )
    }
}

} // verus!
