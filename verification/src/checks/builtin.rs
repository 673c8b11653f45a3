//! The built-in checks.

use super::add_column::AddColumnCheck;
use super::add_domain_check_constraint::AddDomainCheckConstraintCheck;
use super::add_exclude_constraint::AddExcludeConstraintCheck;
use super::add_foreign_key::AddForeignKeyCheck;
use super::add_index::AddIndexCheck;
use super::add_json_column::AddJsonColumnCheck;
use super::add_not_null::AddNotNullCheck;
use super::add_primary_key::AddPrimaryKeyCheck;
use super::add_serial_column::AddSerialColumnCheck;
use super::char_type::CharTypeCheck;
use super::create_table_serial::CreateTableSerialCheck;
use super::create_table_without_pk::CreateTableWithoutPkCheck;
use super::drop_column::DropColumnCheck;
use super::drop_database::DropDatabaseCheck;
use super::drop_index::DropIndexCheck;
use super::drop_primary_key::DropPrimaryKeyCheck;
use super::drop_table::DropTableCheck;
use super::generated_column::GeneratedColumnCheck;
use super::idempotency_alter::IdempotencyAlterCheck;
use super::idempotency_create::IdempotencyCreateCheck;
use super::idempotency_drop::IdempotencyDropCheck;
use super::idempotency_index::IdempotencyIndexCheck;
use super::mutation_without_where::MutationWithoutWhereCheck;
use super::refresh_matview::RefreshMatViewCheck;
use super::reindex::ReindexCheck;
use super::rename_column::RenameColumnCheck;
use super::truncate_table::TruncateTableCheck;
use super::unnamed_constraint::UnnamedConstraintCheck;
use super::wide_index::WideIndexCheck;
use super::Check;
use crate::adapters::{ContextView, MigrationContext};
use crate::ast::NodeEnum;
use crate::config::Config;
use crate::violation::{no_violations, Violation, ViolationView};
use vstd::prelude::*;

verus! {

/// A built-in check.
///
/// Some of them have a name and no rule: configuration and directives may name them, and they
/// report nothing.
#[derive(Debug, Clone, Copy, PartialEq, Eq, Structural)]
pub enum Builtin {
    AddCheckConstraint,
    AddColumn,
    AddDomainCheckConstraint,
    AddExcludeConstraint,
    AddForeignKey,
    AddIdentityColumn,
    AddIndex,
    AddJsonColumn,
    AddNotNull,
    AddPrimaryKey,
    AddSerialColumn,
    AddUniqueConstraint,
    AlterColumnType,
    CharType,
    CreateExtension,
    CreateTableSerial,
    CreateTableWithoutPk,
    DropColumn,
    DropDatabase,
    DropIndex,
    DropNotNull,
    DropPrimaryKey,
    DropTable,
    GeneratedColumn,
    IdempotencyAlter,
    IdempotencyCreate,
    IdempotencyDrop,
    IdempotencyIndex,
    MutationWithoutWhere,
    RefreshMatView,
    Reindex,
    RenameColumn,
    RenameSchema,
    RenameTable,
    ShortIntegerPrimaryKey,
    TimestampType,
    TruncateTable,
    UnnamedConstraint,
    WideIndex,
}

impl Check for Builtin {
    open spec fn title(&self) -> Seq<char> {
        match *self {
            Builtin::AddCheckConstraint => "AddCheckConstraintCheck"@,
            Builtin::AddColumn => "AddColumnCheck"@,
            Builtin::AddDomainCheckConstraint => "AddDomainCheckConstraintCheck"@,
            Builtin::AddExcludeConstraint => "AddExcludeConstraintCheck"@,
            Builtin::AddForeignKey => "AddForeignKeyCheck"@,
            Builtin::AddIdentityColumn => "AddIdentityColumnCheck"@,
            Builtin::AddIndex => "AddIndexCheck"@,
            Builtin::AddJsonColumn => "AddJsonColumnCheck"@,
            Builtin::AddNotNull => "AddNotNullCheck"@,
            Builtin::AddPrimaryKey => "AddPrimaryKeyCheck"@,
            Builtin::AddSerialColumn => "AddSerialColumnCheck"@,
            Builtin::AddUniqueConstraint => "AddUniqueConstraintCheck"@,
            Builtin::AlterColumnType => "AlterColumnTypeCheck"@,
            Builtin::CharType => "CharTypeCheck"@,
            Builtin::CreateExtension => "CreateExtensionCheck"@,
            Builtin::CreateTableSerial => "CreateTableSerialCheck"@,
            Builtin::CreateTableWithoutPk => "CreateTableWithoutPkCheck"@,
            Builtin::DropColumn => "DropColumnCheck"@,
            Builtin::DropDatabase => "DropDatabaseCheck"@,
            Builtin::DropIndex => "DropIndexCheck"@,
            Builtin::DropNotNull => "DropNotNullCheck"@,
            Builtin::DropPrimaryKey => "DropPrimaryKeyCheck"@,
            Builtin::DropTable => "DropTableCheck"@,
            Builtin::GeneratedColumn => "GeneratedColumnCheck"@,
            Builtin::IdempotencyAlter => "IdempotencyAlterCheck"@,
            Builtin::IdempotencyCreate => "IdempotencyCreateCheck"@,
            Builtin::IdempotencyDrop => "IdempotencyDropCheck"@,
            Builtin::IdempotencyIndex => "IdempotencyIndexCheck"@,
            Builtin::MutationWithoutWhere => "MutationWithoutWhereCheck"@,
            Builtin::RefreshMatView => "RefreshMatViewCheck"@,
            Builtin::Reindex => "ReindexCheck"@,
            Builtin::RenameColumn => "RenameColumnCheck"@,
            Builtin::RenameSchema => "RenameSchemaCheck"@,
            Builtin::RenameTable => "RenameTableCheck"@,
            Builtin::ShortIntegerPrimaryKey => "ShortIntegerPrimaryKeyCheck"@,
            Builtin::TimestampType => "TimestampTypeCheck"@,
            Builtin::TruncateTable => "TruncateTableCheck"@,
            Builtin::UnnamedConstraint => "UnnamedConstraintCheck"@,
            Builtin::WideIndex => "WideIndexCheck"@,
        }
    }

    open spec fn violations(
        &self,
        node: NodeEnum,
        config: Config,
        ctx: ContextView,
    ) -> Seq<ViolationView> {
        match *self {
            Builtin::AddColumn => AddColumnCheck.violations(node, config, ctx),
            Builtin::AddDomainCheckConstraint => AddDomainCheckConstraintCheck.violations(
                node,
                config,
                ctx,
            ),
            Builtin::AddExcludeConstraint => AddExcludeConstraintCheck.violations(
                node,
                config,
                ctx,
            ),
            Builtin::AddForeignKey => AddForeignKeyCheck.violations(node, config, ctx),
            Builtin::AddIndex => AddIndexCheck.violations(node, config, ctx),
            Builtin::AddJsonColumn => AddJsonColumnCheck.violations(node, config, ctx),
            Builtin::AddNotNull => AddNotNullCheck.violations(node, config, ctx),
            Builtin::AddPrimaryKey => AddPrimaryKeyCheck.violations(node, config, ctx),
            Builtin::AddSerialColumn => AddSerialColumnCheck.violations(node, config, ctx),
            Builtin::CharType => CharTypeCheck.violations(node, config, ctx),
            Builtin::CreateTableSerial => CreateTableSerialCheck.violations(node, config, ctx),
            Builtin::CreateTableWithoutPk => CreateTableWithoutPkCheck.violations(
                node,
                config,
                ctx,
            ),
            Builtin::DropColumn => DropColumnCheck.violations(node, config, ctx),
            Builtin::DropDatabase => DropDatabaseCheck.violations(node, config, ctx),
            Builtin::DropIndex => DropIndexCheck.violations(node, config, ctx),
            Builtin::DropPrimaryKey => DropPrimaryKeyCheck.violations(node, config, ctx),
            Builtin::DropTable => DropTableCheck.violations(node, config, ctx),
            Builtin::GeneratedColumn => GeneratedColumnCheck.violations(node, config, ctx),
            Builtin::IdempotencyAlter => IdempotencyAlterCheck.violations(node, config, ctx),
            Builtin::IdempotencyCreate => IdempotencyCreateCheck.violations(node, config, ctx),
            Builtin::IdempotencyDrop => IdempotencyDropCheck.violations(node, config, ctx),
            Builtin::IdempotencyIndex => IdempotencyIndexCheck.violations(node, config, ctx),
            Builtin::MutationWithoutWhere => MutationWithoutWhereCheck.violations(
                node,
                config,
                ctx,
            ),
            Builtin::RefreshMatView => RefreshMatViewCheck.violations(node, config, ctx),
            Builtin::Reindex => ReindexCheck.violations(node, config, ctx),
            Builtin::RenameColumn => RenameColumnCheck.violations(node, config, ctx),
            Builtin::TruncateTable => TruncateTableCheck.violations(node, config, ctx),
            Builtin::UnnamedConstraint => UnnamedConstraintCheck.violations(node, config, ctx),
            Builtin::WideIndex => WideIndexCheck.violations(node, config, ctx),
            _ => Seq::empty(),
        }
    }

    fn name(&self) -> (r: &str) {
        match *self {
            Builtin::AddCheckConstraint => "AddCheckConstraintCheck",
            Builtin::AddColumn => "AddColumnCheck",
            Builtin::AddDomainCheckConstraint => "AddDomainCheckConstraintCheck",
            Builtin::AddExcludeConstraint => "AddExcludeConstraintCheck",
            Builtin::AddForeignKey => "AddForeignKeyCheck",
            Builtin::AddIdentityColumn => "AddIdentityColumnCheck",
            Builtin::AddIndex => "AddIndexCheck",
            Builtin::AddJsonColumn => "AddJsonColumnCheck",
            Builtin::AddNotNull => "AddNotNullCheck",
            Builtin::AddPrimaryKey => "AddPrimaryKeyCheck",
            Builtin::AddSerialColumn => "AddSerialColumnCheck",
            Builtin::AddUniqueConstraint => "AddUniqueConstraintCheck",
            Builtin::AlterColumnType => "AlterColumnTypeCheck",
            Builtin::CharType => "CharTypeCheck",
            Builtin::CreateExtension => "CreateExtensionCheck",
            Builtin::CreateTableSerial => "CreateTableSerialCheck",
            Builtin::CreateTableWithoutPk => "CreateTableWithoutPkCheck",
            Builtin::DropColumn => "DropColumnCheck",
            Builtin::DropDatabase => "DropDatabaseCheck",
            Builtin::DropIndex => "DropIndexCheck",
            Builtin::DropNotNull => "DropNotNullCheck",
            Builtin::DropPrimaryKey => "DropPrimaryKeyCheck",
            Builtin::DropTable => "DropTableCheck",
            Builtin::GeneratedColumn => "GeneratedColumnCheck",
            Builtin::IdempotencyAlter => "IdempotencyAlterCheck",
            Builtin::IdempotencyCreate => "IdempotencyCreateCheck",
            Builtin::IdempotencyDrop => "IdempotencyDropCheck",
            Builtin::IdempotencyIndex => "IdempotencyIndexCheck",
            Builtin::MutationWithoutWhere => "MutationWithoutWhereCheck",
            Builtin::RefreshMatView => "RefreshMatViewCheck",
            Builtin::Reindex => "ReindexCheck",
            Builtin::RenameColumn => "RenameColumnCheck",
            Builtin::RenameSchema => "RenameSchemaCheck",
            Builtin::RenameTable => "RenameTableCheck",
            Builtin::ShortIntegerPrimaryKey => "ShortIntegerPrimaryKeyCheck",
            Builtin::TimestampType => "TimestampTypeCheck",
            Builtin::TruncateTable => "TruncateTableCheck",
            Builtin::UnnamedConstraint => "UnnamedConstraintCheck",
            Builtin::WideIndex => "WideIndexCheck",
        }
    }

    fn check(&self, node: &NodeEnum, config: &Config, ctx: &MigrationContext) -> (r: Vec<Violation>) {
        match *self {
            Builtin::AddColumn => AddColumnCheck.check(node, config, ctx),
            Builtin::AddDomainCheckConstraint => AddDomainCheckConstraintCheck.check(
                node,
                config,
                ctx,
            ),
            Builtin::AddExcludeConstraint => AddExcludeConstraintCheck.check(node, config, ctx),
            Builtin::AddForeignKey => AddForeignKeyCheck.check(node, config, ctx),
            Builtin::AddIndex => AddIndexCheck.check(node, config, ctx),
            Builtin::AddJsonColumn => AddJsonColumnCheck.check(node, config, ctx),
            Builtin::AddNotNull => AddNotNullCheck.check(node, config, ctx),
            Builtin::AddPrimaryKey => AddPrimaryKeyCheck.check(node, config, ctx),
            Builtin::AddSerialColumn => AddSerialColumnCheck.check(node, config, ctx),
            Builtin::CharType => CharTypeCheck.check(node, config, ctx),
            Builtin::CreateTableSerial => CreateTableSerialCheck.check(node, config, ctx),
            Builtin::CreateTableWithoutPk => CreateTableWithoutPkCheck.check(node, config, ctx),
            Builtin::DropColumn => DropColumnCheck.check(node, config, ctx),
            Builtin::DropDatabase => DropDatabaseCheck.check(node, config, ctx),
            Builtin::DropIndex => DropIndexCheck.check(node, config, ctx),
            Builtin::DropPrimaryKey => DropPrimaryKeyCheck.check(node, config, ctx),
            Builtin::DropTable => DropTableCheck.check(node, config, ctx),
            Builtin::GeneratedColumn => GeneratedColumnCheck.check(node, config, ctx),
            Builtin::IdempotencyAlter => IdempotencyAlterCheck.check(node, config, ctx),
            Builtin::IdempotencyCreate => IdempotencyCreateCheck.check(node, config, ctx),
            Builtin::IdempotencyDrop => IdempotencyDropCheck.check(node, config, ctx),
            Builtin::IdempotencyIndex => IdempotencyIndexCheck.check(node, config, ctx),
            Builtin::MutationWithoutWhere => MutationWithoutWhereCheck.check(node, config, ctx),
            Builtin::RefreshMatView => RefreshMatViewCheck.check(node, config, ctx),
            Builtin::Reindex => ReindexCheck.check(node, config, ctx),
            Builtin::RenameColumn => RenameColumnCheck.check(node, config, ctx),
            Builtin::TruncateTable => TruncateTableCheck.check(node, config, ctx),
            Builtin::UnnamedConstraint => UnnamedConstraintCheck.check(node, config, ctx),
            Builtin::WideIndex => WideIndexCheck.check(node, config, ctx),
            _ => no_violations(),
        }
    }
}

/// The built-in checks, in the order in which they run.
pub open spec fn builtin_checks() -> Seq<Builtin> {
    seq![
        Builtin::AddCheckConstraint,
        Builtin::AddColumn,
        Builtin::AddDomainCheckConstraint,
        Builtin::AddExcludeConstraint,
        Builtin::AddForeignKey,
        Builtin::AddIdentityColumn,
        Builtin::AddIndex,
        Builtin::AddJsonColumn,
        Builtin::AddNotNull,
        Builtin::AddPrimaryKey,
        Builtin::AddSerialColumn,
        Builtin::AddUniqueConstraint,
        Builtin::AlterColumnType,
        Builtin::CharType,
        Builtin::CreateExtension,
        Builtin::CreateTableSerial,
        Builtin::CreateTableWithoutPk,
        Builtin::DropColumn,
        Builtin::DropDatabase,
        Builtin::DropIndex,
        Builtin::DropNotNull,
        Builtin::DropPrimaryKey,
        Builtin::DropTable,
        Builtin::GeneratedColumn,
        Builtin::IdempotencyAlter,
        Builtin::IdempotencyCreate,
        Builtin::IdempotencyDrop,
        Builtin::IdempotencyIndex,
        Builtin::MutationWithoutWhere,
        Builtin::RefreshMatView,
        Builtin::Reindex,
        Builtin::RenameColumn,
        Builtin::RenameSchema,
        Builtin::RenameTable,
        Builtin::ShortIntegerPrimaryKey,
        Builtin::TimestampType,
        Builtin::TruncateTable,
        Builtin::UnnamedConstraint,
        Builtin::WideIndex,
    ]
}

} // verus!
