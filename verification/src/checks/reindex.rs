//! REINDEX without CONCURRENTLY: blocks all operations until the index is rebuilt.

use super::pg_helpers::{concurrent_advice, concurrent_safe_alternative, NodeEnum};
use super::Check;
use crate::adapters::{ContextView, MigrationContext};
use crate::config::Config;
use crate::ast::ReindexStmt;
use crate::text::{fill, fill_template, same_text, views};
use crate::violation::{no_violations, single_violation, Violation, ViolationView};
use vstd::prelude::*;

verus! {

/// What to do instead.
pub const SUGGESTION: &'static str =
    r#"Use REINDEX CONCURRENTLY for lock-free reindexing (Postgres 12+):

   REINDEX {0} CONCURRENTLY {1};

Note: CONCURRENTLY requires Postgres 12+.

Considerations:
- Takes longer to complete than regular REINDEX
- Allows concurrent read/write operations
- If it fails, the index may be left in "invalid" state and need manual cleanup
- Cannot be rolled back (no transaction support)"#;

/// What is said of REINDEX without CONCURRENTLY.
pub const PROBLEM: &'static str =
    "REINDEX {0} '{1}' without CONCURRENTLY acquires an ACCESS EXCLUSIVE lock, \
                    blocking all operations on the {0} '{1}' until complete. Duration depends on index size.";

/// What is said of REINDEX CONCURRENTLY inside a transaction.
pub const TRANSACTION_PROBLEM: &'static str =
    "REINDEX {0} CONCURRENTLY '{1}' cannot run inside a transaction block. \
                PostgreSQL will raise an error at runtime.";

pub struct ReindexCheck;

/// The keyword for what a REINDEX rebuilds. SYSTEM, which does not support CONCURRENTLY, has none
/// here.
pub open spec fn reindexed(kind: int) -> Option<Seq<char>> {
    if kind == 1 {
        Some("INDEX"@)
    } else if kind == 2 {
        Some("TABLE"@)
    } else if kind == 3 {
        Some("SCHEMA"@)
    } else if kind == 5 {
        Some("DATABASE"@)
    } else {
        None
    }
}

/// Map reindex object to its SQL keyword.
pub fn reindex_object(object: i32) -> (r: Option<&'static str>)
    ensures
        r matches Some(keyword) ==> reindexed(object as int) == Some(keyword@),
        r is None ==> reindexed(object as int) is None,
{
    match object {
        1 => Some("INDEX"),
        2 => Some("TABLE"),
        3 => Some("SCHEMA"),
        5 => Some("DATABASE"),
        _ => None,
    }
}

/// Whether a node is the CONCURRENTLY option.
pub open spec fn is_concurrently(n: NodeEnum) -> bool {
    n matches NodeEnum::DefElem(elem) && elem.defname@ == "concurrently"@
}

/// Whether CONCURRENTLY is among the options of a REINDEX.
pub open spec fn asks_concurrently(params: Seq<NodeEnum>) -> bool {
    exists|i: int| 0 <= i < params.len() && is_concurrently(#[trigger] params[i])
}

/// Check if CONCURRENTLY is present in the REINDEX params.
pub fn has_concurrently(params: &Vec<NodeEnum>) -> (r: bool)
    ensures
        r == asks_concurrently(params@),
{
    let mut i: usize = 0;
    while i < params.len()
        invariant
            i <= params.len(),
            forall|j: int| 0 <= j < i ==> !is_concurrently(#[trigger] params@[j]),
        decreases params.len() - i,
    {
        if let NodeEnum::DefElem(elem) = &params[i] {
            if same_text(elem.defname.as_str(), "concurrently") {
                assert(is_concurrently(params@[i as int]));
                return true;
            }
        }
        i += 1;
    }
    false
}

/// What a REINDEX names: an index or a table by its relation, a schema or a database by its name.
pub open spec fn reindex_target(stmt: ReindexStmt) -> Seq<char> {
    if stmt.kind == 1 || stmt.kind == 2 {
        match stmt.relation {
            Some(rv) => rv.relname@,
            None => Seq::empty(),
        }
    } else {
        stmt.name@
    }
}

fn target_name(stmt: &ReindexStmt) -> (r: String)
    ensures
        r@ == reindex_target(*stmt),
{
    if stmt.kind == 1 || stmt.kind == 2 {
        match &stmt.relation {
            Some(rv) => rv.relname.clone(),
            None => String::new(),
        }
    } else {
        stmt.name.clone()
    }
}

impl Check for ReindexCheck {
    open spec fn title(&self) -> Seq<char> {
        "ReindexCheck"@
    }

    open spec fn violations(
        &self,
        node: NodeEnum,
        config: Config,
        ctx: ContextView,
    ) -> Seq<ViolationView> {
        match node {
            NodeEnum::ReindexStmt(stmt) => match reindexed(stmt.kind as int) {
                Some(object) => {
                    let args = seq![object, reindex_target(stmt)];
                    if !asks_concurrently(stmt.params@) {
                        seq![
                            ViolationView::new(
                                "REINDEX without CONCURRENTLY"@,
                                fill(PROBLEM@, args),
                                concurrent_advice(fill(SUGGESTION@, args), ctx),
                            ),
                        ]
                    } else if ctx.run_in_transaction {
                        seq![
                            ViolationView::new(
                                "REINDEX CONCURRENTLY inside a transaction"@,
                                fill(TRANSACTION_PROBLEM@, args),
                                ctx.no_transaction_hint,
                            ),
                        ]
                    } else {
                        Seq::empty()
                    }
                },
                None => Seq::empty(),
            },
            _ => Seq::empty(),
        }
    }

    fn name(&self) -> (r: &str) {
        "ReindexCheck"
    }

    fn check(&self, node: &NodeEnum, config: &Config, ctx: &MigrationContext) -> (r: Vec<Violation>) {
        let NodeEnum::ReindexStmt(stmt) = node else {
            return no_violations();
        };
        let Some(object) = reindex_object(stmt.kind) else {
            return no_violations();
        };
        let target = target_name(stmt);
        let args: Vec<&str> = vec![object, target.as_str()];
        assert(views(args@) =~= seq![object@, target@]);

        if !has_concurrently(&stmt.params) {
            let suggestion = fill_template(SUGGESTION, &args);
            let safe_alternative = concurrent_safe_alternative(suggestion, ctx);
            return single_violation(
                Violation::new(
                    "REINDEX without CONCURRENTLY",
                    fill_template(PROBLEM, &args).as_str(),
                    safe_alternative.as_str(),
                ),
            );
        }
        // REINDEX CONCURRENTLY is safe only outside a transaction.
        if !ctx.run_in_transaction {
            return no_violations();
        }
        single_violation(
            Violation::new(
                "REINDEX CONCURRENTLY inside a transaction",
                fill_template(TRANSACTION_PROBLEM, &args).as_str(),
                ctx.no_transaction_hint,
            ),
        )
    }
}

} // verus!
