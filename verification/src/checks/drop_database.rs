//! DROP DATABASE: has no place in an application migration.

use super::pg_helpers::NodeEnum;
use super::{if_exists_clause, if_exists_text, Check};
use crate::adapters::{ContextView, MigrationContext};
use crate::config::Config;
use crate::text::views;
use crate::violation::{finding, no_violations, single_violation, Violation, ViolationView};
use vstd::prelude::*;

verus! {

/// What the violation says of the problem.
pub const PROBLEM: &'static str =
    "Dropping database '{0}' permanently deletes the entire database \
                including all tables, data, and objects. This operation requires \
                exclusive access (all connections must be terminated) and cannot \
                run inside a transaction block.";

/// What the violation says to do instead.
pub const SAFE_ALTERNATIVE: &'static str =
    r"DROP DATABASE should almost never appear in application migrations.

If you need to drop a database:

1. Verify this is intentional and coordinate with your DBA:
   -- Confirm database '{0}' is scheduled for removal

2. Create a complete backup before proceeding:
   pg_dump -Fc {0} > {0}_backup.dump

3. Terminate all active connections to the database:
   SELECT pg_terminate_backend(pid)
   FROM pg_stat_activity
   WHERE datname = '{0}' AND pid <> pg_backend_pid();

4. Drop the database (outside of application migrations):
   DROP DATABASE{1} {0};

If this is intentional (e.g., test cleanup), use a safety-assured block:
   -- safety-assured:start
   DROP DATABASE{1} {0};
   -- safety-assured:end

Note: Postgres 13+ supports WITH (FORCE) to auto-terminate connections, but this is even more dangerous.";

pub struct DropDatabaseCheck;

impl Check for DropDatabaseCheck {
    open spec fn title(&self) -> Seq<char> {
        "DropDatabaseCheck"@
    }

    open spec fn violations(
        &self,
        node: NodeEnum,
        config: Config,
        ctx: ContextView,
    ) -> Seq<ViolationView> {
        match node {
            NodeEnum::DropdbStmt(stmt) => seq![
                finding(
                    "DROP DATABASE"@,
                    PROBLEM@,
                    SAFE_ALTERNATIVE@,
                    seq![stmt.dbname@, if_exists_text(stmt.missing_ok)],
                ),
            ],
            _ => Seq::empty(),
        }
    }

    fn name(&self) -> (r: &str) {
        "DropDatabaseCheck"
    }

    fn check(&self, node: &NodeEnum, config: &Config, ctx: &MigrationContext) -> (r: Vec<Violation>) {
        let NodeEnum::DropdbStmt(stmt) = node else {
            return no_violations();
        };
        let if_exists = if_exists_clause(stmt.missing_ok);
        let args: Vec<&str> = vec![stmt.dbname.as_str(), if_exists];
        assert(views(args@) =~= seq![stmt.dbname@, if_exists@]);
        single_violation(Violation::from_templates("DROP DATABASE", PROBLEM, SAFE_ALTERNATIVE, &args))
    }
}

} // verus!
