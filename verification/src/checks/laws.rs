//! What holds of the checks together.

use super::add_column::{added_column, column_default, is_constant, FAST_DEFAULT_VERSION};
use super::add_index::AddIndexCheck;
use super::builtin::Builtin;
use super::drop_index::DropIndexCheck;
use super::drop_table::DropTableCheck;
use super::idempotency_drop::IdempotencyDropCheck;
use super::pg_helpers::{added_column_of, object_names};
use super::refresh_matview::RefreshMatViewCheck;
use super::registry::{node_violations, report_of, RegisteredCheck};
use super::reindex::{asks_concurrently, reindexed, ReindexCheck};
use super::rules::{drop_violations, DropRule};
use super::Check;
use crate::adapters::{law_without_repeats, ContextView};
use crate::ast::{
    AlterTableCmd, DropStmt, IndexStmt, NodeEnum, ObjectType, RefreshMatViewStmt, ReindexStmt,
};
use crate::config::Config;
use crate::violation::ViolationView;
use vstd::prelude::*;

verus! {

/// Creating an index is safe exactly if it is done concurrently and outside a transaction.
pub proof fn law_index_creation_is_safe_when_concurrent(
    stmt: IndexStmt,
    config: Config,
    ctx: ContextView,
)
    ensures
        AddIndexCheck.violations(NodeEnum::IndexStmt(stmt), config, ctx).len() == 0 <==> (
        stmt.concurrent && !ctx.run_in_transaction),
{
}

/// Dropping indexes is safe exactly if it is done concurrently and outside a transaction.
pub proof fn law_index_removal_is_safe_when_concurrent(
    stmt: DropStmt,
    config: Config,
    ctx: ContextView,
)
    requires
        stmt.remove_type == ObjectType::ObjectIndex,
        object_names(stmt.objects@).len() > 0,
    ensures
        DropIndexCheck.violations(NodeEnum::DropStmt(stmt), config, ctx).len() == 0 <==> (
        stmt.concurrent && !ctx.run_in_transaction),
{
}

/// Refreshing a materialized view is safe exactly if it is done concurrently and outside a
/// transaction.
pub proof fn law_refresh_is_safe_when_concurrent(
    stmt: RefreshMatViewStmt,
    config: Config,
    ctx: ContextView,
)
    ensures
        RefreshMatViewCheck.violations(NodeEnum::RefreshMatViewStmt(stmt), config, ctx).len() == 0
            <==> (stmt.concurrent && !ctx.run_in_transaction),
{
}

/// Reindexing is safe exactly if it is done concurrently and outside a transaction.
pub proof fn law_reindex_is_safe_when_concurrent(
    stmt: ReindexStmt,
    config: Config,
    ctx: ContextView,
)
    requires
        reindexed(stmt.kind as int) is Some,
    ensures
        ReindexCheck.violations(NodeEnum::ReindexStmt(stmt), config, ctx).len() == 0 <==> (
        asks_concurrently(stmt.params@) && !ctx.run_in_transaction),
{
}

proof fn lemma_same_drops<R: DropRule>(rule: R, stmt: DropStmt, a: ContextView, b: ContextView)
    requires
        forall|name: Seq<char>| #[trigger] rule.report(stmt, a, name) == rule.report(stmt, b, name),
    ensures
        drop_violations(rule, stmt, a) == drop_violations(rule, stmt, b),
{
    assert(drop_violations(rule, stmt, a) =~= drop_violations(rule, stmt, b));
}

/// What a built-in check reports does not depend on which checks the migration disables.
pub proof fn law_checks_ignore_each_other(
    check: Builtin,
    node: NodeEnum,
    config: Config,
    a: ContextView,
    b: ContextView,
)
    requires
        a.run_in_transaction == b.run_in_transaction,
        a.no_transaction_hint == b.no_transaction_hint,
    ensures
        check.violations(node, config, a) == check.violations(node, config, b),
{
    if let NodeEnum::DropStmt(stmt) = node {
        lemma_same_drops(DropIndexCheck, stmt, a, b);
        lemma_same_drops(DropTableCheck, stmt, a, b);
        lemma_same_drops(IdempotencyDropCheck, stmt, a, b);
    }
}

/// Whether a check is none of those named.
pub open spec fn not_named(names: Seq<Seq<char>>) -> spec_fn(RegisteredCheck) -> bool {
    |check: RegisteredCheck| !names.contains(check.title())
}

/// To disable checks for a migration is to leave them out: what the other checks report stays the
/// same.
pub proof fn law_disabling_leaves_the_other_checks_alone(
    checks: Seq<RegisteredCheck>,
    names: Seq<Seq<char>>,
    node: NodeEnum,
    config: Config,
    ctx: ContextView,
)
    requires
        forall|i: int| 0 <= i < checks.len() ==> (#[trigger] checks[i]) is Builtin,
    ensures
        node_violations(checks, node, config, ctx.disabling(names)) == node_violations(
            checks.filter(not_named(names)),
            node,
            config,
            ctx,
        ),
    decreases checks.len(),
{
    let with = report_of(node, config, ctx.disabling(names));
    let without = report_of(node, config, ctx);
    let kept = checks.filter(not_named(names));
    reveal(Seq::filter);
    if checks.len() == 0 {
        assert(checks.flat_map(with) =~= Seq::<ViolationView>::empty());
        assert(kept.flat_map(without) =~= Seq::<ViolationView>::empty());
    } else {
        let rest = checks.drop_last();
        let check = checks.last();
        assert forall|i: int| 0 <= i < rest.len() implies (#[trigger] rest[i]) is Builtin by {
            assert(rest[i] == checks[i]);
        }
        law_disabling_leaves_the_other_checks_alone(rest, names, node, config, ctx);
        assert(rest.push(check) =~= checks);
        rest.lemma_flat_map_push(with, check);
        let all = ctx.disabled_checks + names;
        law_without_repeats(all);
        assert(checks[checks.len() - 1] is Builtin);
        if names.contains(check.title()) {
            let i = names.index_of(check.title());
            assert(all[ctx.disabled_checks.len() + i] == check.title());
            assert(all.contains(check.title()));
            assert(with(check) =~= Seq::<ViolationView>::empty());
        } else {
            assert(all.contains(check.title()) == ctx.disabled_checks.contains(check.title())) by {
                if ctx.disabled_checks.contains(check.title()) {
                    let i = ctx.disabled_checks.index_of(check.title());
                    assert(all[i] == check.title());
                }
                if all.contains(check.title()) {
                    let i = all.index_of(check.title());
                    if i >= ctx.disabled_checks.len() {
                        assert(names[i - ctx.disabled_checks.len()] == check.title());
                    } else {
                        assert(ctx.disabled_checks[i] == check.title());
                    }
                }
            }
            if let RegisteredCheck::Builtin(builtin) = check {
                law_checks_ignore_each_other(builtin, node, config, ctx.disabling(names), ctx);
            }
            assert(with(check) == without(check));
            rest.filter(not_named(names)).lemma_flat_map_push(without, check);
        }
    }
}

/// No two built-in checks have the same name.
pub proof fn law_builtin_names_are_distinct(a: Builtin, b: Builtin)
    requires
        a.title() == b.title(),
    ensures
        a == b,
{
    reveal_strlit("AddCheckConstraintCheck");
    reveal_strlit("AddColumnCheck");
    reveal_strlit("AddDomainCheckConstraintCheck");
    reveal_strlit("AddExcludeConstraintCheck");
    reveal_strlit("AddForeignKeyCheck");
    reveal_strlit("AddIdentityColumnCheck");
    reveal_strlit("AddIndexCheck");
    reveal_strlit("AddJsonColumnCheck");
    reveal_strlit("AddNotNullCheck");
    reveal_strlit("AddPrimaryKeyCheck");
    reveal_strlit("AddSerialColumnCheck");
    reveal_strlit("AddUniqueConstraintCheck");
    reveal_strlit("AlterColumnTypeCheck");
    reveal_strlit("CharTypeCheck");
    reveal_strlit("CreateExtensionCheck");
    reveal_strlit("CreateTableSerialCheck");
    reveal_strlit("CreateTableWithoutPkCheck");
    reveal_strlit("DropColumnCheck");
    reveal_strlit("DropDatabaseCheck");
    reveal_strlit("DropIndexCheck");
    reveal_strlit("DropNotNullCheck");
    reveal_strlit("DropPrimaryKeyCheck");
    reveal_strlit("DropTableCheck");
    reveal_strlit("GeneratedColumnCheck");
    reveal_strlit("IdempotencyAlterCheck");
    reveal_strlit("IdempotencyCreateCheck");
    reveal_strlit("IdempotencyDropCheck");
    reveal_strlit("IdempotencyIndexCheck");
    reveal_strlit("MutationWithoutWhereCheck");
    reveal_strlit("RefreshMatViewCheck");
    reveal_strlit("ReindexCheck");
    reveal_strlit("RenameColumnCheck");
    reveal_strlit("RenameSchemaCheck");
    reveal_strlit("RenameTableCheck");
    reveal_strlit("ShortIntegerPrimaryKeyCheck");
    reveal_strlit("TimestampTypeCheck");
    reveal_strlit("TruncateTableCheck");
    reveal_strlit("UnnamedConstraintCheck");
    reveal_strlit("WideIndexCheck");
    assert("AddCheckConstraintCheck"@.len() == 23);
    assert("AddColumnCheck"@.len() == 14);
    assert("AddDomainCheckConstraintCheck"@.len() == 29);
    assert("AddExcludeConstraintCheck"@.len() == 25);
    assert("AddForeignKeyCheck"@.len() == 18);
    assert("AddIdentityColumnCheck"@.len() == 22);
    assert("AddIndexCheck"@.len() == 13);
    assert("AddJsonColumnCheck"@.len() == 18);
    assert("AddNotNullCheck"@.len() == 15);
    assert("AddPrimaryKeyCheck"@.len() == 18);
    assert("AddSerialColumnCheck"@.len() == 20);
    assert("AddUniqueConstraintCheck"@.len() == 24);
    assert("AlterColumnTypeCheck"@.len() == 20);
    assert("CharTypeCheck"@.len() == 13);
    assert("CreateExtensionCheck"@.len() == 20);
    assert("CreateTableSerialCheck"@.len() == 22);
    assert("CreateTableWithoutPkCheck"@.len() == 25);
    assert("DropColumnCheck"@.len() == 15);
    assert("DropDatabaseCheck"@.len() == 17);
    assert("DropIndexCheck"@.len() == 14);
    assert("DropNotNullCheck"@.len() == 16);
    assert("DropPrimaryKeyCheck"@.len() == 19);
    assert("DropTableCheck"@.len() == 14);
    assert("GeneratedColumnCheck"@.len() == 20);
    assert("IdempotencyAlterCheck"@.len() == 21);
    assert("IdempotencyCreateCheck"@.len() == 22);
    assert("IdempotencyDropCheck"@.len() == 20);
    assert("IdempotencyIndexCheck"@.len() == 21);
    assert("MutationWithoutWhereCheck"@.len() == 25);
    assert("RefreshMatViewCheck"@.len() == 19);
    assert("ReindexCheck"@.len() == 12);
    assert("RenameColumnCheck"@.len() == 17);
    assert("RenameSchemaCheck"@.len() == 17);
    assert("RenameTableCheck"@.len() == 16);
    assert("ShortIntegerPrimaryKeyCheck"@.len() == 27);
    assert("TimestampTypeCheck"@.len() == 18);
    assert("TruncateTableCheck"@.len() == 18);
    assert("UnnamedConstraintCheck"@.len() == 22);
    assert("WideIndexCheck"@.len() == 14);
    assert("AddIndexCheck"@[0] != "CharTypeCheck"@[0]);
    assert("AddColumnCheck"@[0] != "DropIndexCheck"@[0]);
    assert("AddColumnCheck"@[0] != "DropTableCheck"@[0]);
    assert("AddColumnCheck"@[0] != "WideIndexCheck"@[0]);
    assert("DropIndexCheck"@[4] != "DropTableCheck"@[4]);
    assert("DropIndexCheck"@[0] != "WideIndexCheck"@[0]);
    assert("DropTableCheck"@[0] != "WideIndexCheck"@[0]);
    assert("AddNotNullCheck"@[0] != "DropColumnCheck"@[0]);
    assert("DropNotNullCheck"@[0] != "RenameTableCheck"@[0]);
    assert("DropDatabaseCheck"@[0] != "RenameColumnCheck"@[0]);
    assert("DropDatabaseCheck"@[0] != "RenameSchemaCheck"@[0]);
    assert("RenameColumnCheck"@[6] != "RenameSchemaCheck"@[6]);
    assert("AddForeignKeyCheck"@[3] != "AddJsonColumnCheck"@[3]);
    assert("AddForeignKeyCheck"@[3] != "AddPrimaryKeyCheck"@[3]);
    assert("AddForeignKeyCheck"@[0] != "TimestampTypeCheck"@[0]);
    assert("AddForeignKeyCheck"@[0] != "TruncateTableCheck"@[0]);
    assert("AddJsonColumnCheck"@[3] != "AddPrimaryKeyCheck"@[3]);
    assert("AddJsonColumnCheck"@[0] != "TimestampTypeCheck"@[0]);
    assert("AddJsonColumnCheck"@[0] != "TruncateTableCheck"@[0]);
    assert("AddPrimaryKeyCheck"@[0] != "TimestampTypeCheck"@[0]);
    assert("AddPrimaryKeyCheck"@[0] != "TruncateTableCheck"@[0]);
    assert("TimestampTypeCheck"@[1] != "TruncateTableCheck"@[1]);
    assert("DropPrimaryKeyCheck"@[0] != "RefreshMatViewCheck"@[0]);
    assert("AddSerialColumnCheck"@[1] != "AlterColumnTypeCheck"@[1]);
    assert("AddSerialColumnCheck"@[0] != "CreateExtensionCheck"@[0]);
    assert("AddSerialColumnCheck"@[0] != "GeneratedColumnCheck"@[0]);
    assert("AddSerialColumnCheck"@[0] != "IdempotencyDropCheck"@[0]);
    assert("AlterColumnTypeCheck"@[0] != "CreateExtensionCheck"@[0]);
    assert("AlterColumnTypeCheck"@[0] != "GeneratedColumnCheck"@[0]);
    assert("AlterColumnTypeCheck"@[0] != "IdempotencyDropCheck"@[0]);
    assert("CreateExtensionCheck"@[0] != "GeneratedColumnCheck"@[0]);
    assert("CreateExtensionCheck"@[0] != "IdempotencyDropCheck"@[0]);
    assert("GeneratedColumnCheck"@[0] != "IdempotencyDropCheck"@[0]);
    assert("IdempotencyAlterCheck"@[11] != "IdempotencyIndexCheck"@[11]);
    assert("AddIdentityColumnCheck"@[0] != "CreateTableSerialCheck"@[0]);
    assert("AddIdentityColumnCheck"@[0] != "IdempotencyCreateCheck"@[0]);
    assert("AddIdentityColumnCheck"@[0] != "UnnamedConstraintCheck"@[0]);
    assert("CreateTableSerialCheck"@[0] != "IdempotencyCreateCheck"@[0]);
    assert("CreateTableSerialCheck"@[0] != "UnnamedConstraintCheck"@[0]);
    assert("IdempotencyCreateCheck"@[0] != "UnnamedConstraintCheck"@[0]);
    assert("AddExcludeConstraintCheck"@[0] != "CreateTableWithoutPkCheck"@[0]);
    assert("AddExcludeConstraintCheck"@[0] != "MutationWithoutWhereCheck"@[0]);
    assert("CreateTableWithoutPkCheck"@[0] != "MutationWithoutWhereCheck"@[0]);
}

/// Constant defaults are safe since the version that adds them without a rewrite.
pub proof fn law_constant_defaults_are_safe_since_version_11(
    table: Seq<char>,
    config: Config,
    cmd: AlterTableCmd,
)
    requires
        config.postgres_version matches Some(version) && version >= FAST_DEFAULT_VERSION,
        added_column_of(cmd) matches Some(col) && (column_default(col) matches Some(default) && (
        default.raw_expr matches Some(expr) && is_constant(*expr))),
    ensures
        added_column(table, config)(cmd) is None,
{
}

} // verus!
