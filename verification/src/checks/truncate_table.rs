//! TRUNCATE: an ACCESS EXCLUSIVE lock that cannot be batched or throttled.

use super::pg_helpers::{range_var_name, relation_name, NodeEnum};
use super::Check;
use crate::adapters::{ContextView, MigrationContext};
use crate::config::Config;
use crate::text::views;
use crate::violation::{finding, no_violations, violation_views, Violation, ViolationView};
use vstd::prelude::*;

verus! {

/// What the violation says of the problem.
pub const PROBLEM: &'static str =
    "TRUNCATE TABLE on '{0}' acquires an ACCESS EXCLUSIVE lock, blocking \
                            all reads and writes. Unlike DELETE, it cannot be batched or throttled. \
                            This is safe for empty/small tables or non-production environments, but \
                            dangerous on large production tables.";

/// What the violation says to do instead.
pub const SAFE_ALTERNATIVE: &'static str =
    r#"If this table can be large in production, prefer batched DELETE:

1. Delete rows in small batches:
   DELETE FROM {0} WHERE id IN (
     SELECT id FROM {0} LIMIT 1000
   );

2. Repeat until all rows are removed.

3. (Optional) Reset sequences:
   ALTER SEQUENCE {0}_id_seq RESTART WITH 1;

4. (Optional) Reclaim space:
   VACUUM {0};

If TRUNCATE is intentional (e.g. lookup table, test/staging environment,
or table is known to be small), silence this check:

  Per-statement — wrap in a safety-assured block:
    -- safety-assured:start
    -- Safe because: lookup table, always small
    TRUNCATE TABLE {0};
    -- safety-assured:end

  Project-wide as a warning (reported but non-blocking):
    # diesel-guard.toml
    warn_checks = ["TruncateTableCheck"]

  Project-wide silenced:
    # diesel-guard.toml
    disable_checks = ["TruncateTableCheck"]"#;

pub struct TruncateTableCheck;

/// What is reported of one of the relations of a TRUNCATE.
pub open spec fn truncated() -> spec_fn(NodeEnum) -> Option<ViolationView> {
    |n: NodeEnum|
        match n {
            NodeEnum::RangeVar(rv) => Some(
                finding(
                    "TRUNCATE TABLE"@,
                    PROBLEM@,
                    SAFE_ALTERNATIVE@,
                    seq![relation_name(rv)],
                ),
            ),
            _ => None,
        }
}

impl Check for TruncateTableCheck {
    open spec fn title(&self) -> Seq<char> {
        "TruncateTableCheck"@
    }

    open spec fn violations(
        &self,
        node: NodeEnum,
        config: Config,
        ctx: ContextView,
    ) -> Seq<ViolationView> {
        match node {
            NodeEnum::TruncateStmt(stmt) => stmt.relations@.filter_map(truncated()),
            _ => Seq::empty(),
        }
    }

    fn name(&self) -> (r: &str) {
        "TruncateTableCheck"
    }

    fn check(&self, node: &NodeEnum, config: &Config, ctx: &MigrationContext) -> (r: Vec<Violation>) {
        let NodeEnum::TruncateStmt(stmt) = node else {
            return no_violations();
        };
        let ghost all = stmt.relations@;
        let mut r: Vec<Violation> = Vec::new();
        let mut i: usize = 0;
        assert(violation_views(r@) =~= all.take(0).filter_map(truncated()));
        while i < stmt.relations.len()
            invariant
                i <= stmt.relations.len(),
                all == stmt.relations@,
                violation_views(r@) == all.take(i as int).filter_map(truncated()),
            decreases stmt.relations.len() - i,
        {
            let ghost before = r@;
            proof {
                all.lemma_filter_map_take_succ(truncated(), i as int);
            }
            if let NodeEnum::RangeVar(rv) = &stmt.relations[i] {
                let table = range_var_name(rv);
                let args: Vec<&str> = vec![table.as_str()];
                assert(views(args@) =~= seq![table@]);
                let v = Violation::from_templates("TRUNCATE TABLE", PROBLEM, SAFE_ALTERNATIVE, &args);
                r.push(v);
                assert(violation_views(r@) =~= violation_views(before).push(v@));
            }
            i += 1;
        }
        assert(all.take(all.len() as int) =~= all);
        r
    }
}

} // verus!
