//! CREATE INDEX without CONCURRENTLY: blocks writes until the index is built.

use super::pg_helpers::{
    concurrent_advice, concurrent_safe_alternative, name_or, nonempty_or, table_name, table_of, NodeEnum,
};
use super::{unique_prefix, unique_text, Check};
use crate::adapters::{ContextView, MigrationContext};
use crate::config::Config;
use crate::text::{fill, fill_template, views};
use crate::violation::{no_violations, single_violation, Violation, ViolationView};
use vstd::prelude::*;

verus! {

/// What to do instead.
pub const SUGGESTION: &'static str =
    r#"Use CONCURRENTLY to build the index without blocking writes:
   CREATE {0}INDEX CONCURRENTLY {1} ON {2};

Note: CONCURRENTLY takes longer and uses more resources, but allows concurrent INSERT, UPDATE, and DELETE operations. The index build may fail if there are deadlocks or unique constraint violations.

Considerations:
- Requires more total work and takes longer to complete
- If it fails, it leaves behind an "invalid" index that should be dropped"#;

/// What is said of CREATE INDEX without CONCURRENTLY.
pub const PROBLEM: &'static str =
    "Creating {0}index '{1}' on table '{2}' without CONCURRENTLY acquires a SHARE lock, blocking writes \
                    (INSERT, UPDATE, DELETE). Duration depends on table size. Reads are still allowed.";

/// What is said of CREATE INDEX CONCURRENTLY inside a transaction.
pub const TRANSACTION_PROBLEM: &'static str =
    "Creating {0}index '{1}' on table '{2}' with CONCURRENTLY cannot run inside a transaction block. \
                PostgreSQL will raise an error at runtime.";

pub struct AddIndexCheck;

impl Check for AddIndexCheck {
    open spec fn title(&self) -> Seq<char> {
        "AddIndexCheck"@
    }

    open spec fn violations(
        &self,
        node: NodeEnum,
        config: Config,
        ctx: ContextView,
    ) -> Seq<ViolationView> {
        match node {
            NodeEnum::IndexStmt(stmt) => {
                let args = seq![
                    unique_text(stmt.unique),
                    name_or(stmt.idxname@, "<unnamed>"@),
                    table_of(stmt.relation),
                ];
                if !stmt.concurrent {
                    seq![
                        ViolationView::new(
                            "ADD INDEX without CONCURRENTLY"@,
                            fill(PROBLEM@, args),
                            concurrent_advice(fill(SUGGESTION@, args), ctx),
                        ),
                    ]
                } else if ctx.run_in_transaction {
                    seq![
                        ViolationView::new(
                            "CREATE INDEX CONCURRENTLY inside a transaction"@,
                            fill(TRANSACTION_PROBLEM@, args),
                            ctx.no_transaction_hint,
                        ),
                    ]
                } else {
                    Seq::empty()
                }
            },
            _ => Seq::empty(),
        }
    }

    fn name(&self) -> (r: &str) {
        "AddIndexCheck"
    }

    fn check(&self, node: &NodeEnum, config: &Config, ctx: &MigrationContext) -> (r: Vec<Violation>) {
        let NodeEnum::IndexStmt(stmt) = node else {
            return no_violations();
        };
        let table = table_name(&stmt.relation);
        let index_name = nonempty_or(stmt.idxname.as_str(), "<unnamed>");
        let unique_str = unique_prefix(stmt.unique);
        let args: Vec<&str> = vec![unique_str, index_name.as_str(), table.as_str()];
        assert(views(args@) =~= seq![unique_str@, index_name@, table@]);

        if !stmt.concurrent {
            let suggestion = fill_template(SUGGESTION, &args);
            let safe_alternative = concurrent_safe_alternative(suggestion, ctx);
            return single_violation(
                Violation::new(
                    "ADD INDEX without CONCURRENTLY",
                    fill_template(PROBLEM, &args).as_str(),
                    safe_alternative.as_str(),
                ),
            );
        }
        // CREATE INDEX CONCURRENTLY is safe only outside a transaction.
        if !ctx.run_in_transaction {
            return no_violations();
        }
        single_violation(
            Violation::new(
                "CREATE INDEX CONCURRENTLY inside a transaction",
                fill_template(TRANSACTION_PROBLEM, &args).as_str(),
                ctx.no_transaction_hint,
            ),
        )
    }
}

} // verus!
