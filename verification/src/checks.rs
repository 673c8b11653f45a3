//! The checks.

pub mod add_column;
pub mod add_domain_check_constraint;
pub mod add_exclude_constraint;
pub mod add_foreign_key;
pub mod add_index;
pub mod add_json_column;
pub mod add_not_null;
pub mod add_primary_key;
pub mod add_serial_column;
pub mod builtin;
pub mod char_type;
pub mod create_table_serial;
pub mod create_table_without_pk;
pub mod drop_column;
pub mod drop_database;
pub mod drop_index;
pub mod drop_primary_key;
pub mod drop_table;
pub mod generated_column;
pub mod idempotency_alter;
pub mod idempotency_create;
pub mod idempotency_drop;
pub mod idempotency_index;
pub mod laws;
pub mod mutation_without_where;
pub mod pg_helpers;
pub mod refresh_matview;
pub mod registry;
pub mod reindex;
pub mod rename_column;
pub mod reports;
pub mod rules;
pub mod truncate_table;
pub mod unnamed_constraint;
pub mod wide_index;

use crate::adapters::{ContextView, MigrationContext};
use crate::ast::NodeEnum;
use crate::config::Config;
use crate::violation::{violation_views, Violation, ViolationView};
use vstd::prelude::*;

verus! {

/// A check on a single statement.
pub trait Check: Send + Sync {
    /// The name under which the check is configured.
    spec fn title(&self) -> Seq<char>;

    /// What the check reports of a statement.
    spec fn violations(
        &self,
        node: NodeEnum,
        config: Config,
        ctx: ContextView,
    ) -> Seq<ViolationView>;

    /// The check's name, used for config-based disabling (e.g., "AddColumnCheck").
    fn name(&self) -> (r: &str)
        ensures
            r@ == self.title(),
    ;

    /// Run the check on a statement and return any violations found
    fn check(&self, node: &NodeEnum, config: &Config, ctx: &MigrationContext) -> (r: Vec<Violation>)
        ensures
            violation_views(r@) == self.violations(*node, *config, ctx@),
    ;
}

/// `UNIQUE ` for a unique index, nothing for another.
pub open spec fn unique_text(is_unique: bool) -> Seq<char> {
    if is_unique {
        "UNIQUE "@
    } else {
        ""@
    }
}

/// Get prefix string for unique indexes
pub fn unique_prefix(is_unique: bool) -> (r: &'static str)
    ensures
        r@ == unique_text(is_unique),
{
    if is_unique {
        "UNIQUE "
    } else {
        ""
    }
}

/// ` IF EXISTS` where it is asked for, nothing otherwise.
pub open spec fn if_exists_text(if_exists: bool) -> Seq<char> {
    if if_exists {
        " IF EXISTS"@
    } else {
        ""@
    }
}

/// Get SQL clause for IF EXISTS modifier
pub fn if_exists_clause(if_exists: bool) -> (r: &'static str)
    ensures
        r@ == if_exists_text(if_exists),
{
    if if_exists {
        " IF EXISTS"
    } else {
        ""
    }
}

/// ` CONCURRENTLY` where it is asked for, nothing otherwise.
pub open spec fn concurrently_text(concurrent: bool) -> Seq<char> {
    if concurrent {
        " CONCURRENTLY"@
    } else {
        ""@
    }
}

/// Get SQL clause for the CONCURRENTLY modifier.
pub fn concurrently_clause(concurrent: bool) -> (r: &'static str)
    ensures
        r@ == concurrently_text(concurrent),
{
    if concurrent {
        " CONCURRENTLY"
    } else {
        ""
    }
}

} // verus!
