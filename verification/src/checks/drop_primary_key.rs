//! DROP CONSTRAINT of what looks like a primary key: breaks the foreign keys that refer to it.
//!
//! Whether a constraint is a primary key is guessed from its name, so a primary key with an unusual
//! name is missed, and another constraint with such a name is reported.

use super::pg_helpers::{AlterTableType, NodeEnum};
use super::rules::{alter_violations, check_alter, AlterRule};
use super::Check;
use crate::adapters::{ContextView, MigrationContext};
use crate::ast::AlterTableCmd;
use crate::config::Config;
use crate::pattern::{regex_is_match, Pattern, PRIMARY_KEY_PATTERN};
use crate::text::views;
use crate::violation::{finding, opt_view, Violation, ViolationView};
use vstd::prelude::*;

verus! {

/// What the violation says of the problem.
pub const PROBLEM: &'static str =
    "Dropping primary key constraint '{1}' from table '{0}' requires an ACCESS EXCLUSIVE lock, blocking all operations. \
                        More critically, this breaks foreign key relationships in other tables and removes the uniqueness constraint.";

/// What the violation says to do instead.
pub const SAFE_ALTERNATIVE: &'static str =
    r"Consider the following before dropping a primary key:

1. Identify all foreign key dependencies:
   SELECT
     tc.table_name, kcu.column_name, rc.constraint_name
   FROM information_schema.table_constraints tc
   JOIN information_schema.key_column_usage kcu ON tc.constraint_name = kcu.constraint_name
   JOIN information_schema.referential_constraints rc ON tc.constraint_name = rc.unique_constraint_name
   WHERE tc.table_name = '{0}' AND tc.constraint_type = 'PRIMARY KEY';

2. If you must change the primary key:
   - Create the new primary key constraint FIRST
   - Update all foreign keys to reference the new key
   - Then drop the old primary key

3. If migrating to a different key strategy:
   - Consider using a transition period with both keys
   - Update application code gradually
   - Drop the old key only after full migration

Note: This check uses naming pattern detection (e.g., '{1}' matches '*_pkey' pattern) and may not catch all cases.
Future versions will support database connections for accurate constraint type verification.
If this is a false positive, use a safety-assured block.";

pub struct DropPrimaryKeyCheck;

/// What is reported of a command, given whether the name in it is likely that of a primary key.
pub open spec fn dropped_constraint(table: Seq<char>, cmd: AlterTableCmd, likely: bool) -> Option<
    ViolationView,
> {
    if cmd.subtype == AlterTableType::AtDropConstraint && likely {
        Some(finding("DROP PRIMARY KEY"@, PROBLEM@, SAFE_ALTERNATIVE@, seq![table, cmd.name@]))
    } else {
        None
    }
}

/// Reports a dropped primary key, as `dropped_constraint` says.
pub fn check_dropped_constraint(table: &str, cmd: &AlterTableCmd, likely: bool) -> (r: Option<
    Violation,
>)
    ensures
        opt_view(r) == dropped_constraint(table@, *cmd, likely),
{
    if cmd.subtype != AlterTableType::AtDropConstraint || !likely {
        return None;
    }
    let args: Vec<&str> = vec![table, cmd.name.as_str()];
    assert(views(args@) =~= seq![table@, cmd.name@]);
    Some(Violation::from_templates("DROP PRIMARY KEY", PROBLEM, SAFE_ALTERNATIVE, &args))
}

impl DropPrimaryKeyCheck {
    /// Check if a constraint name likely refers to a primary key.
    pub fn is_likely_primary_key(constraint_name: &str) -> (r: bool)
        ensures
            r == regex_is_match(PRIMARY_KEY_PATTERN@, constraint_name@),
    {
        Pattern::new(PRIMARY_KEY_PATTERN).is_match(constraint_name)
    }
}

impl AlterRule for DropPrimaryKeyCheck {
    open spec fn rule(&self, table: Seq<char>, cmd: AlterTableCmd) -> Option<ViolationView> {
        dropped_constraint(table, cmd, regex_is_match(PRIMARY_KEY_PATTERN@, cmd.name@))
    }

    fn apply(&self, table: &str, cmd: &AlterTableCmd) -> (r: Option<Violation>) {
        if cmd.subtype != AlterTableType::AtDropConstraint {
            return None;
        }
        check_dropped_constraint(table, cmd, Self::is_likely_primary_key(cmd.name.as_str()))
    }
}

impl Check for DropPrimaryKeyCheck {
    open spec fn title(&self) -> Seq<char> {
        "DropPrimaryKeyCheck"@
    }

    open spec fn violations(
        &self,
        node: NodeEnum,
        config: Config,
        ctx: ContextView,
    ) -> Seq<ViolationView> {
        alter_violations(*self, node)
    }

    fn name(&self) -> (r: &str) {
        "DropPrimaryKeyCheck"
    }

    fn check(&self, node: &NodeEnum, config: &Config, ctx: &MigrationContext) -> (r: Vec<Violation>) {
        check_alter(self, node)
    }
}

} // verus!
