//! What each built-in check reports, read off the parse tree.

use super::add_column::is_constant;
use super::builtin::Builtin;
use super::char_type::char_column;
use super::create_table_serial::serial_element;
use super::pg_helpers::{
    added_column_of, cmds_of, column_of, column_type, command_column, concurrent_advice,
    element_column, node_cmd, node_string, object_name, object_names, relation_name,
    strings_of, table_of, TRANSACTION_NOTE,
};
use super::rules::{alter_violations, drop_violations, on_cmd, AlterRule, DropRule};
use super::truncate_table::truncated;
use super::wide_index::{index_column, index_columns};
use super::{
    add_column, add_domain_check_constraint, add_exclude_constraint, add_foreign_key, add_index,
    add_json_column, add_not_null, add_primary_key, add_serial_column, char_type,
    create_table_serial, create_table_without_pk, drop_column, drop_database, drop_index,
    drop_primary_key, drop_table, generated_column, idempotency_alter, idempotency_create,
    idempotency_drop, idempotency_index, mutation_without_where, refresh_matview, reindex,
    rename_column, truncate_table, unnamed_constraint, wide_index, Check,
};
use crate::adapters::ContextView;
use crate::ast::{
    AConst, AlterDomainStmt, AlterTableCmd, AlterTableStmt, AlterTableType, ColumnDef, ConstrType,
    Constraint, CreateStmt, DeleteStmt, DropBehavior, DropStmt, DropdbStmt, IndexStmt, NodeEnum,
    ObjectType, RangeVar, RefreshMatViewStmt, ReindexStmt, RenameStmt, TruncateStmt, TypeName,
    UpdateStmt,
};
use crate::config::Config;
use crate::pattern::regex_is_match;
use crate::text::{decimal, fill, join, replace_all, signed_decimal};
use crate::violation::{finding, Severity, ViolationView};
use vstd::prelude::*;

verus! {

/// A table is reported for want of a primary key, once, exactly if it is not temporary, copies no
/// other table, and neither a table constraint nor a constraint of a column makes a primary key.
/// Constraints of other kinds make no difference.
pub proof fn law_tables_need_a_primary_key(stmt: CreateStmt, config: Config, ctx: ContextView)
    ensures
        Builtin::CreateTableWithoutPk.violations(NodeEnum::CreateStmt(stmt), config, ctx) == if {
            ||| stmt.relation matches Some(rv) && rv.relpersistence@ == "t"@
            ||| exists|i: int|
                0 <= i < stmt.table_elts@.len() && #[trigger] stmt.table_elts@[i] is TableLikeClause
            ||| exists|i: int|
                0 <= i < stmt.table_elts@.len() && (
                #[trigger] stmt.table_elts@[i] matches NodeEnum::Constraint(c) && c.contype
                    == ConstrType::ConstrPrimary)
            ||| exists|i: int|
                0 <= i < stmt.table_elts@.len() && (
                #[trigger] stmt.table_elts@[i] matches NodeEnum::ColumnDef(col) && exists|k: int|
                    0 <= k < col.constraints@.len() && (
                    #[trigger] col.constraints@[k] matches NodeEnum::Constraint(c) && c.contype
                        == ConstrType::ConstrPrimary))
        } {
            Seq::empty()
        } else {
            seq![
                finding(
                    "CREATE TABLE without PRIMARY KEY"@,
                    create_table_without_pk::PROBLEM@,
                    create_table_without_pk::SAFE_ALTERNATIVE@,
                    seq![table_of(stmt.relation)],
                ),
            ]
        },
{
}

// ---------------------------------------------------------------------------
// ALTER TABLE
// ---------------------------------------------------------------------------

proof fn lemma_mapped_in_turn<A, B>(first: Seq<A>, second: Seq<A>, f: spec_fn(A) -> Option<B>)
    ensures
        (first + second).filter_map(f) == first.filter_map(f) + second.filter_map(f),
    decreases second.len(),
{
    if second.len() == 0 {
        assert(first + second =~= first);
        assert(first.filter_map(f) + second.filter_map(f) =~= first.filter_map(f));
    } else {
        let rest = second.drop_last();
        lemma_mapped_in_turn(first, rest, f);
        assert((first + second).drop_last() =~= first + rest);
        assert((first + second).last() == second.last());
        assert((first + second).filter_map(f) =~= first.filter_map(f) + second.filter_map(f));
    }
}

proof fn lemma_alter_in_turn<R: AlterRule>(
    rule: R,
    whole: AlterTableStmt,
    first: AlterTableStmt,
    second: AlterTableStmt,
)
    requires
        whole.relation == first.relation,
        whole.relation == second.relation,
        whole.cmds@ == first.cmds@ + second.cmds@,
    ensures
        alter_violations(rule, NodeEnum::AlterTableStmt(whole)) == alter_violations(
            rule,
            NodeEnum::AlterTableStmt(first),
        ) + alter_violations(rule, NodeEnum::AlterTableStmt(second)),
{
    lemma_mapped_in_turn(first.cmds@, second.cmds@, node_cmd());
    lemma_mapped_in_turn(
        cmds_of(first),
        cmds_of(second),
        on_cmd(rule, table_of(whole.relation)),
    );
}

/// Every command of an ALTER TABLE is checked, in their order, and what a check reports of one does not
/// depend on the others.
pub proof fn law_commands_are_checked_in_turn(
    check: Builtin,
    whole: AlterTableStmt,
    first: AlterTableStmt,
    second: AlterTableStmt,
    config: Config,
    ctx: ContextView,
)
    requires
        whole.relation == first.relation,
        whole.relation == second.relation,
        whole.cmds@ == first.cmds@ + second.cmds@,
    ensures
        check.violations(NodeEnum::AlterTableStmt(whole), config, ctx) == check.violations(
            NodeEnum::AlterTableStmt(first),
            config,
            ctx,
        ) + check.violations(NodeEnum::AlterTableStmt(second), config, ctx),
{
    let none = Seq::<ViolationView>::empty();
    assert(none + none =~= none);
    let table = table_of(whole.relation);
    lemma_alter_in_turn(add_exclude_constraint::AddExcludeConstraintCheck, whole, first, second);
    lemma_alter_in_turn(add_foreign_key::AddForeignKeyCheck, whole, first, second);
    lemma_alter_in_turn(add_json_column::AddJsonColumnCheck, whole, first, second);
    lemma_alter_in_turn(add_not_null::AddNotNullCheck, whole, first, second);
    lemma_alter_in_turn(add_primary_key::AddPrimaryKeyCheck, whole, first, second);
    lemma_alter_in_turn(add_serial_column::AddSerialColumnCheck, whole, first, second);
    lemma_alter_in_turn(drop_column::DropColumnCheck, whole, first, second);
    lemma_alter_in_turn(drop_primary_key::DropPrimaryKeyCheck, whole, first, second);
    lemma_alter_in_turn(generated_column::GeneratedColumnCheck, whole, first, second);
    lemma_alter_in_turn(idempotency_alter::IdempotencyAlterCheck, whole, first, second);
    lemma_alter_in_turn(unnamed_constraint::UnnamedConstraintCheck, whole, first, second);
    lemma_mapped_in_turn(first.cmds@, second.cmds@, node_cmd());
    lemma_mapped_in_turn(cmds_of(first), cmds_of(second), add_column::added_column(table, config));
    lemma_mapped_in_turn(first.cmds@, second.cmds@, command_column(table));
    lemma_mapped_in_turn(
        first.cmds@.filter_map(command_column(table)),
        second.cmds@.filter_map(command_column(table)),
        char_column(false),
    );
}

/// An ALTER TABLE without commands, and one whose command the parser does not give, is not reported.
pub proof fn law_empty_alterations_are_not_reported(
    check: Builtin,
    alter: AlterTableStmt,
    config: Config,
    ctx: ContextView,
)
    requires
        alter.cmds@.len() == 0 || alter.cmds@.len() == 1 && alter.cmds@[0] !is AlterTableCmd,
    ensures
        check.violations(NodeEnum::AlterTableStmt(alter), config, ctx).len() == 0,
{
    let cmds = alter.cmds@;
    if cmds.len() == 1 {
        assert(cmds =~= seq![cmds[0]]);
        Seq::lemma_filter_map_singleton(cmds[0], node_cmd());
        Seq::lemma_filter_map_singleton(cmds[0], command_column(table_of(alter.relation)));
    }
}

proof fn lemma_single<R: AlterRule>(rule: R, alter: AlterTableStmt, cmd: AlterTableCmd)
    requires
        alter.cmds@ == seq![NodeEnum::AlterTableCmd(cmd)],
    ensures
        alter_violations(rule, NodeEnum::AlterTableStmt(alter)) == match rule.rule(
            table_of(alter.relation),
            cmd,
        ) {
            Some(v) => seq![v],
            None => Seq::empty(),
        },
{
    lemma_single_cmd(alter, cmd);
    Seq::lemma_filter_map_singleton(cmd, on_cmd(rule, table_of(alter.relation)));
}

proof fn lemma_single_cmd(alter: AlterTableStmt, cmd: AlterTableCmd)
    requires
        alter.cmds@ == seq![NodeEnum::AlterTableCmd(cmd)],
    ensures
        cmds_of(alter) == seq![cmd],
{
    Seq::lemma_filter_map_singleton(NodeEnum::AlterTableCmd(cmd), node_cmd());
}

/// DROP COLUMN is reported, whatever else the command says; no other command is.
pub proof fn law_dropped_columns_are_reported(
    alter: AlterTableStmt,
    cmd: AlterTableCmd,
    config: Config,
    ctx: ContextView,
)
    requires
        alter.cmds@ == seq![NodeEnum::AlterTableCmd(cmd)],
    ensures
        Builtin::DropColumn.violations(NodeEnum::AlterTableStmt(alter), config, ctx)
            == if cmd.subtype == AlterTableType::AtDropColumn {
            seq![
                finding(
                    "DROP COLUMN"@,
                    drop_column::PROBLEM@,
                    drop_column::SAFE_ALTERNATIVE@,
                    seq![
                        table_of(alter.relation),
                        cmd.name@,
                        if cmd.missing_ok {
                            " IF EXISTS"@
                        } else {
                            ""@
                        },
                    ],
                ),
            ]
        } else {
            Seq::empty()
        },
{
    lemma_single(drop_column::DropColumnCheck, alter, cmd);
}

/// SET NOT NULL is reported; no other command is.
pub proof fn law_not_null_is_reported(
    alter: AlterTableStmt,
    cmd: AlterTableCmd,
    config: Config,
    ctx: ContextView,
)
    requires
        alter.cmds@ == seq![NodeEnum::AlterTableCmd(cmd)],
    ensures
        Builtin::AddNotNull.violations(NodeEnum::AlterTableStmt(alter), config, ctx)
            == if cmd.subtype == AlterTableType::AtSetNotNull {
            seq![
                finding(
                    "ADD NOT NULL constraint"@,
                    add_not_null::PROBLEM@,
                    add_not_null::SAFE_ALTERNATIVE@,
                    seq![table_of(alter.relation), cmd.name@],
                ),
            ]
        } else {
            Seq::empty()
        },
{
    lemma_single(add_not_null::AddNotNullCheck, alter, cmd);
}

/// Dropping a constraint is reported exactly if its name looks like that of a primary key.
pub proof fn law_dropped_primary_keys_are_reported(
    alter: AlterTableStmt,
    cmd: AlterTableCmd,
    config: Config,
    ctx: ContextView,
)
    requires
        alter.cmds@ == seq![NodeEnum::AlterTableCmd(cmd)],
    ensures
        Builtin::DropPrimaryKey.violations(NodeEnum::AlterTableStmt(alter), config, ctx)
            == if cmd.subtype == AlterTableType::AtDropConstraint && regex_is_match(
            r"(?i)((_pkey|_pk)$|^pk_|_primary_key|primarykey)"@,
            cmd.name@,
        ) {
            seq![
                finding(
                    "DROP PRIMARY KEY"@,
                    drop_primary_key::PROBLEM@,
                    drop_primary_key::SAFE_ALTERNATIVE@,
                    seq![table_of(alter.relation), cmd.name@],
                ),
            ]
        } else {
            Seq::empty()
        },
{
    lemma_single(drop_primary_key::DropPrimaryKeyCheck, alter, cmd);
}

/// Whether a command brings a constraint.
pub open spec fn brings_constraint(cmd: AlterTableCmd, c: Constraint) -> bool {
    cmd.def matches Some(n) && *n == NodeEnum::Constraint(c)
}

/// A constraint that is added is reported by its kind: an exclusion constraint always, a foreign key
/// unless it is NOT VALID, a primary key unless it takes an existing index over, and a unique, foreign
/// key or check constraint without a name for want of one.
pub proof fn law_added_constraints_are_reported(
    alter: AlterTableStmt,
    cmd: AlterTableCmd,
    c: Constraint,
    config: Config,
    ctx: ContextView,
)
    requires
        alter.cmds@ == seq![NodeEnum::AlterTableCmd(cmd)],
        brings_constraint(cmd, c),
    ensures
        ({
            let node = NodeEnum::AlterTableStmt(alter);
            let table = table_of(alter.relation);
            let name = if c.conname@.len() == 0 {
                "<unnamed>"@
            } else {
                c.conname@
            };
            &&& Builtin::AddExcludeConstraint.violations(node, config, ctx) == if c.contype
                == ConstrType::ConstrExclusion {
                seq![
                    finding(
                        "ADD EXCLUDE constraint"@,
                        add_exclude_constraint::PROBLEM@,
                        add_exclude_constraint::SAFE_ALTERNATIVE@,
                        seq![table, name],
                    ),
                ]
            } else {
                Seq::empty()
            }
            &&& Builtin::AddForeignKey.violations(node, config, ctx) == if c.contype
                == ConstrType::ConstrForeign && c.initially_valid {
                seq![
                    finding(
                        "ADD FOREIGN KEY"@,
                        add_foreign_key::PROBLEM@,
                        add_foreign_key::SAFE_ALTERNATIVE@,
                        seq![
                            table,
                            name,
                            join(strings_of(c.fk_attrs@), ", "@),
                            table_of(c.pktable),
                            join(strings_of(c.pk_attrs@), ", "@),
                        ],
                    ),
                ]
            } else {
                Seq::empty()
            }
        }),
{
    lemma_single(add_exclude_constraint::AddExcludeConstraintCheck, alter, cmd);
    lemma_single(add_foreign_key::AddForeignKeyCheck, alter, cmd);
}

/// A primary key that is added is reported exactly if it names no existing index to use. Where the
/// statement gives no name, one is made from that of the table.
pub proof fn law_added_primary_keys_are_reported(
    alter: AlterTableStmt,
    cmd: AlterTableCmd,
    c: Constraint,
    config: Config,
    ctx: ContextView,
)
    requires
        alter.cmds@ == seq![NodeEnum::AlterTableCmd(cmd)],
        brings_constraint(cmd, c),
    ensures
        ({
            let table = table_of(alter.relation);
            let key_name = fill(add_primary_key::PKEY_NAME@, seq![table]);
            Builtin::AddPrimaryKey.violations(NodeEnum::AlterTableStmt(alter), config, ctx)
                == if c.contype == ConstrType::ConstrPrimary && c.indexname@.len() == 0 {
                seq![
                    finding(
                        "ADD PRIMARY KEY"@,
                        add_primary_key::PROBLEM@,
                        add_primary_key::SAFE_ALTERNATIVE@,
                        seq![
                            table,
                            if c.conname@.len() == 0 {
                                key_name
                            } else {
                                c.conname@
                            },
                            join(strings_of(c.keys@), ", "@),
                            key_name,
                        ],
                    ),
                ]
            } else {
                Seq::empty()
            }
        }),
{
    lemma_single(add_primary_key::AddPrimaryKeyCheck, alter, cmd);
}

/// A constraint without a name is reported exactly if it is a unique, a foreign key or a check
/// constraint; one with a name never is.
pub proof fn law_unnamed_constraints_are_reported(
    alter: AlterTableStmt,
    cmd: AlterTableCmd,
    c: Constraint,
    config: Config,
    ctx: ContextView,
)
    requires
        alter.cmds@ == seq![NodeEnum::AlterTableCmd(cmd)],
        brings_constraint(cmd, c),
    ensures
        ({
            let node = NodeEnum::AlterTableStmt(alter);
            let table = table_of(alter.relation);
            let keys = join(strings_of(c.keys@), ", "@);
            let references = fill(
                unnamed_constraint::FOREIGN_KEY_COLUMNS@,
                seq![
                    join(strings_of(c.fk_attrs@), ", "@),
                    table_of(c.pktable),
                    join(strings_of(c.pk_attrs@), ", "@),
                ],
            );
            Builtin::UnnamedConstraint.violations(node, config, ctx) == if c.conname@.len() == 0
                && (c.contype == ConstrType::ConstrUnique || c.contype == ConstrType::ConstrForeign
                || c.contype == ConstrType::ConstrCheck) {
                seq![
                    finding(
                        "CONSTRAINT without name"@,
                        unnamed_constraint::PROBLEM@,
                        unnamed_constraint::SAFE_ALTERNATIVE@,
                        if c.contype == ConstrType::ConstrUnique {
                            seq![table, "UNIQUE"@, keys, "column_key"@]
                        } else if c.contype == ConstrType::ConstrForeign {
                            seq![table, "FOREIGN KEY"@, references, "column_fkey"@]
                        } else {
                            seq![table, "CHECK"@, "(...)"@, "column_check"@]
                        },
                    ),
                ]
            } else {
                Seq::empty()
            }
        }),
{
    lemma_single(unnamed_constraint::UnnamedConstraintCheck, alter, cmd);
}

/// A command that brings no constraint is not reported by the checks on constraints.
pub proof fn law_commands_without_constraint_add_none(
    alter: AlterTableStmt,
    cmd: AlterTableCmd,
    config: Config,
    ctx: ContextView,
)
    requires
        alter.cmds@ == seq![NodeEnum::AlterTableCmd(cmd)],
        cmd.def is None || (cmd.def matches Some(n) && *n !is Constraint),
    ensures
        ({
            let node = NodeEnum::AlterTableStmt(alter);
            &&& Builtin::AddExcludeConstraint.violations(node, config, ctx).len() == 0
            &&& Builtin::AddForeignKey.violations(node, config, ctx).len() == 0
            &&& Builtin::AddPrimaryKey.violations(node, config, ctx).len() == 0
            &&& Builtin::UnnamedConstraint.violations(node, config, ctx).len() == 0
        }),
{
    lemma_single(add_exclude_constraint::AddExcludeConstraintCheck, alter, cmd);
    lemma_single(add_foreign_key::AddForeignKeyCheck, alter, cmd);
    lemma_single(add_primary_key::AddPrimaryKeyCheck, alter, cmd);
    lemma_single(unnamed_constraint::UnnamedConstraintCheck, alter, cmd);
}

/// Whether a command adds a column.
pub open spec fn adds_column(cmd: AlterTableCmd, col: ColumnDef) -> bool {
    cmd.subtype == AlterTableType::AtAddColumn && (cmd.def matches Some(n) && *n
        == NodeEnum::ColumnDef(col))
}

/// A column that is added is reported by its type: `json`, the serial types and `bpchar`, which is
/// CHAR, and no other; and as generated exactly if one of its constraints says so.
pub proof fn law_added_columns_are_reported_by_type(
    alter: AlterTableStmt,
    cmd: AlterTableCmd,
    col: ColumnDef,
    config: Config,
    ctx: ContextView,
)
    requires
        alter.cmds@ == seq![NodeEnum::AlterTableCmd(cmd)],
        adds_column(cmd, col),
    ensures
        ({
            let node = NodeEnum::AlterTableStmt(alter);
            let table = table_of(alter.relation);
            let typ = column_type(col);
            &&& Builtin::AddJsonColumn.violations(node, config, ctx) == if typ == "json"@ {
                seq![
                    finding(
                        "ADD COLUMN with JSON type"@,
                        add_json_column::PROBLEM@,
                        add_json_column::SAFE_ALTERNATIVE@,
                        seq![table, col.colname@],
                    ),
                ]
            } else {
                Seq::empty()
            }
            &&& Builtin::AddSerialColumn.violations(node, config, ctx) == if typ == "serial"@ || typ
                == "bigserial"@ || typ == "smallserial"@ {
                seq![
                    finding(
                        "ADD COLUMN with SERIAL"@,
                        add_serial_column::PROBLEM@,
                        add_serial_column::SAFE_ALTERNATIVE@,
                        seq![table, col.colname@, typ],
                    ),
                ]
            } else {
                Seq::empty()
            }
            &&& Builtin::GeneratedColumn.violations(node, config, ctx) == if exists|k: int|
                0 <= k < col.constraints@.len() && (
                #[trigger] col.constraints@[k] matches NodeEnum::Constraint(c) && c.contype
                    == ConstrType::ConstrGenerated) {
                seq![
                    finding(
                        "ADD COLUMN with GENERATED STORED"@,
                        generated_column::PROBLEM@,
                        generated_column::SAFE_ALTERNATIVE@,
                        seq![table, col.colname@, typ],
                    ),
                ]
            } else {
                Seq::empty()
            }
        }),
{
    lemma_single(add_json_column::AddJsonColumnCheck, alter, cmd);
    lemma_single(add_serial_column::AddSerialColumnCheck, alter, cmd);
    lemma_single(generated_column::GeneratedColumnCheck, alter, cmd);
}

/// A CHAR column that is added is reported with its length, which is 1 where the statement gives none.
pub proof fn law_added_char_columns_are_reported(
    alter: AlterTableStmt,
    cmd: AlterTableCmd,
    col: ColumnDef,
    config: Config,
    ctx: ContextView,
)
    requires
        alter.cmds@ == seq![NodeEnum::AlterTableCmd(cmd)],
        adds_column(cmd, col),
    ensures
        Builtin::CharType.violations(NodeEnum::AlterTableStmt(alter), config, ctx) == if column_type(
            col,
        ) == "bpchar"@ {
            seq![
                finding(
                    "ADD COLUMN with CHAR type"@,
                    char_type::PROBLEM@,
                    char_type::ALTER_SAFE_ALTERNATIVE@,
                    seq![table_of(alter.relation), col.colname@, written_length(col)],
                ),
            ]
        } else {
            Seq::empty()
        },
{
    let table = table_of(alter.relation);
    Seq::lemma_filter_map_singleton(NodeEnum::AlterTableCmd(cmd), command_column(table));
    Seq::lemma_filter_map_singleton((table, col), char_column(false));
}

/// The length that a CHAR column is written with.
pub open spec fn written_length(col: ColumnDef) -> Seq<char> {
    match col.typename {
        Some(tn) => if tn.typmods@.len() > 0 && (tn.typmods@[0] matches NodeEnum::AConst(
            AConst::Integer(_),
        )) {
            signed_decimal((tn.typmods@[0]->AConst_0)->Integer_0 as int)
        } else {
            "1"@
        },
        None => "1"@,
    }
}

/// A column that is added with a default is reported, unless the version is 11 or later and the default
/// is constant. The first default counts.
pub proof fn law_added_defaults_are_reported(
    alter: AlterTableStmt,
    cmd: AlterTableCmd,
    col: ColumnDef,
    k: int,
    default: Constraint,
    config: Config,
    ctx: ContextView,
)
    requires
        alter.cmds@ == seq![NodeEnum::AlterTableCmd(cmd)],
        adds_column(cmd, col),
        0 <= k < col.constraints@.len(),
        col.constraints@[k] == NodeEnum::Constraint(default),
        default.contype == ConstrType::ConstrDefault,
        forall|j: int|
            0 <= j < k ==> !(#[trigger] col.constraints@[j] matches NodeEnum::Constraint(c)
                && c.contype == ConstrType::ConstrDefault),
    ensures
        Builtin::AddColumn.violations(NodeEnum::AlterTableStmt(alter), config, ctx) == if (
        config.postgres_version matches Some(version) && version >= 11) && (
        default.raw_expr matches Some(expr) && is_constant(*expr)) {
            Seq::empty()
        } else {
            seq![
                finding(
                    "ADD COLUMN with DEFAULT"@,
                    add_column::PROBLEM@,
                    add_column::SAFE_ALTERNATIVE@,
                    seq![
                        table_of(alter.relation),
                        col.colname@,
                        if column_type(col) == "bool"@ {
                            "BOOLEAN"@
                        } else {
                            column_type(col)
                        },
                        add_column::written_default(default),
                    ],
                ),
            ]
        },
{
    lemma_single_cmd(alter, cmd);
    let table = table_of(alter.relation);
    Seq::lemma_filter_map_singleton(cmd, add_column::added_column(table, config));
    lemma_first_default(col.constraints@, 0, k, default);
}

proof fn lemma_first_default(constraints: Seq<NodeEnum>, from: int, k: int, default: Constraint)
    requires
        0 <= from <= k < constraints.len(),
        constraints[k] == NodeEnum::Constraint(default),
        default.contype == ConstrType::ConstrDefault,
        forall|j: int|
            from <= j < k ==> !(#[trigger] constraints[j] matches NodeEnum::Constraint(c)
                && c.contype == ConstrType::ConstrDefault),
    ensures
        add_column::default_from(constraints, from) == Some(default),
    decreases k - from,
{
    if from < k {
        assert(!(constraints[from] matches NodeEnum::Constraint(c) && c.contype
            == ConstrType::ConstrDefault));
        lemma_first_default(constraints, from + 1, k, default);
    }
}

proof fn lemma_no_default(constraints: Seq<NodeEnum>, from: int)
    requires
        0 <= from <= constraints.len(),
        forall|j: int|
            from <= j < constraints.len() ==> !(
            #[trigger] constraints[j] matches NodeEnum::Constraint(c) && c.contype
                == ConstrType::ConstrDefault),
    ensures
        add_column::default_from(constraints, from) is None,
    decreases constraints.len() - from,
{
    if from < constraints.len() {
        assert(!(constraints[from] matches NodeEnum::Constraint(c) && c.contype
            == ConstrType::ConstrDefault));
        lemma_no_default(constraints, from + 1);
    }
}

/// A column that is added without a default is not reported as one with a default.
pub proof fn law_columns_without_default_are_not_reported(
    alter: AlterTableStmt,
    cmd: AlterTableCmd,
    col: ColumnDef,
    config: Config,
    ctx: ContextView,
)
    requires
        alter.cmds@ == seq![NodeEnum::AlterTableCmd(cmd)],
        adds_column(cmd, col),
        forall|j: int|
            0 <= j < col.constraints@.len() ==> !(
            #[trigger] col.constraints@[j] matches NodeEnum::Constraint(c) && c.contype
                == ConstrType::ConstrDefault),
    ensures
        Builtin::AddColumn.violations(NodeEnum::AlterTableStmt(alter), config, ctx).len() == 0,
{
    lemma_single_cmd(alter, cmd);
    let table = table_of(alter.relation);
    Seq::lemma_filter_map_singleton(cmd, add_column::added_column(table, config));
    lemma_no_default(col.constraints@, 0);
}

/// A default is constant exactly if it is a literal or a cast of a constant; a call is not.
pub proof fn law_constants_are_literals_and_casts_of_them(expr: NodeEnum)
    ensures
        expr is AConst ==> is_constant(expr),
        expr matches NodeEnum::TypeCast(inner) ==> is_constant(expr) == is_constant(*inner),
        expr !is AConst && expr !is TypeCast ==> !is_constant(expr),
{
}

/// A default is written out if it is a truth value or an integer, and otherwise as a placeholder.
pub proof fn law_defaults_are_written_out(default: Constraint)
    ensures
        add_column::written_default(default) == if default.raw_expr matches Some(n) && *n
            == NodeEnum::AConst(AConst::Boolean(true)) {
            "true"@
        } else if default.raw_expr matches Some(n) && *n == NodeEnum::AConst(
            AConst::Boolean(false),
        ) {
            "false"@
        } else if default.raw_expr matches Some(n) && (*n matches NodeEnum::AConst(
            AConst::Integer(_),
        )) {
            signed_decimal(((*default.raw_expr->0)->AConst_0)->Integer_0 as int)
        } else {
            "<value>"@
        },
{
}

/// A command that adds no column is not reported by the checks on new columns.
pub proof fn law_commands_without_column_add_none(
    alter: AlterTableStmt,
    cmd: AlterTableCmd,
    config: Config,
    ctx: ContextView,
)
    requires
        alter.cmds@ == seq![NodeEnum::AlterTableCmd(cmd)],
        forall|col: ColumnDef| !adds_column(cmd, col),
    ensures
        ({
            let node = NodeEnum::AlterTableStmt(alter);
            &&& Builtin::AddColumn.violations(node, config, ctx).len() == 0
            &&& Builtin::AddJsonColumn.violations(node, config, ctx).len() == 0
            &&& Builtin::AddSerialColumn.violations(node, config, ctx).len() == 0
            &&& Builtin::CharType.violations(node, config, ctx).len() == 0
            &&& Builtin::GeneratedColumn.violations(node, config, ctx).len() == 0
        }),
{
    lemma_single(add_json_column::AddJsonColumnCheck, alter, cmd);
    lemma_single(add_serial_column::AddSerialColumnCheck, alter, cmd);
    lemma_single(generated_column::GeneratedColumnCheck, alter, cmd);
    lemma_single_cmd(alter, cmd);
    let table = table_of(alter.relation);
    if let Some(col) = added_column_of(cmd) {
        assert(adds_column(cmd, col));
    }
    Seq::lemma_filter_map_singleton(cmd, add_column::added_column(table, config));
    Seq::lemma_filter_map_singleton(NodeEnum::AlterTableCmd(cmd), command_column(table));
}

/// Without IF NOT EXISTS, adding a column with a name is reported; without IF EXISTS, dropping one is;
/// nothing else is.
pub proof fn law_unguarded_alterations_are_reported(
    alter: AlterTableStmt,
    cmd: AlterTableCmd,
    config: Config,
    ctx: ContextView,
)
    requires
        alter.cmds@ == seq![NodeEnum::AlterTableCmd(cmd)],
    ensures
        ({
            let table = table_of(alter.relation);
            let reported = Builtin::IdempotencyAlter.violations(
                NodeEnum::AlterTableStmt(alter),
                config,
                ctx,
            );
            &&& cmd.missing_ok ==> reported.len() == 0
            &&& !cmd.missing_ok && cmd.subtype == AlterTableType::AtDropColumn ==> reported == seq![
                finding(
                    "DROP COLUMN without IF EXISTS"@,
                    idempotency_alter::DROP_PROBLEM@,
                    idempotency_alter::DROP_SAFE_ALTERNATIVE@,
                    seq![table, cmd.name@],
                ),
            ]
            &&& forall|col: ColumnDef| #[trigger]
                adds_column(cmd, col) && !cmd.missing_ok && col.colname@.len() > 0 ==> reported
                    == seq![
                    finding(
                        "ADD COLUMN without IF NOT EXISTS"@,
                        idempotency_alter::ADD_PROBLEM@,
                        idempotency_alter::ADD_SAFE_ALTERNATIVE@,
                        seq![table, col.colname@],
                    ),
                ]
            &&& cmd.subtype != AlterTableType::AtDropColumn && (forall|col: ColumnDef| #[trigger]
                adds_column(cmd, col) ==> col.colname@.len() == 0) ==> reported.len() == 0
        }),
{
    lemma_single(idempotency_alter::IdempotencyAlterCheck, alter, cmd);
    if cmd.subtype == AlterTableType::AtAddColumn {
        if let Some(col) = column_of(cmd) {
            assert(adds_column(cmd, col));
        }
    }
}

// ---------------------------------------------------------------------------
// CREATE TABLE
// ---------------------------------------------------------------------------

/// The columns of a new table are checked for CHAR one by one.
pub proof fn law_new_columns_are_checked_in_turn(
    whole: CreateStmt,
    first: CreateStmt,
    second: CreateStmt,
    config: Config,
    ctx: ContextView,
)
    requires
        whole.relation == first.relation,
        whole.relation == second.relation,
        whole.table_elts@ == first.table_elts@ + second.table_elts@,
    ensures
        Builtin::CharType.violations(NodeEnum::CreateStmt(whole), config, ctx)
            == Builtin::CharType.violations(NodeEnum::CreateStmt(first), config, ctx)
            + Builtin::CharType.violations(NodeEnum::CreateStmt(second), config, ctx),
{
    let table = table_of(whole.relation);
    lemma_mapped_in_turn(first.table_elts@, second.table_elts@, element_column(table));
    lemma_mapped_in_turn(
        first.table_elts@.filter_map(element_column(table)),
        second.table_elts@.filter_map(element_column(table)),
        char_column(true),
    );
}

/// A CHAR column of a new table is reported with its length; an element of another kind, and a column
/// of another type, is not.
pub proof fn law_new_char_columns_are_reported(
    stmt: CreateStmt,
    elt: NodeEnum,
    config: Config,
    ctx: ContextView,
)
    requires
        stmt.table_elts@ == seq![elt],
    ensures
        Builtin::CharType.violations(NodeEnum::CreateStmt(stmt), config, ctx) == match elt {
            NodeEnum::ColumnDef(col) => if column_type(col) == "bpchar"@ {
                seq![
                    finding(
                        "CREATE TABLE with CHAR type"@,
                        char_type::PROBLEM@,
                        char_type::CREATE_SAFE_ALTERNATIVE@,
                        seq![table_of(stmt.relation), col.colname@, written_length(col)],
                    ),
                ]
            } else {
                Seq::empty()
            },
            _ => Seq::empty(),
        },
{
    let table = table_of(stmt.relation);
    Seq::lemma_filter_map_singleton(elt, element_column(table));
    if let NodeEnum::ColumnDef(col) = elt {
        Seq::lemma_filter_map_singleton((table, col), char_column(true));
    }
}

/// Each column of a new table that has a serial type is reported, in their order, and nothing else.
pub proof fn law_new_serial_columns_are_reported(
    stmt: CreateStmt,
    elt: NodeEnum,
    before: Seq<NodeEnum>,
    config: Config,
)
    ensures
        ({
            let f = create_table_serial::serial_element(stmt, config);
            before.push(elt).filter_map(f) == match elt {
                NodeEnum::ColumnDef(col) => if column_type(col) == "serial"@ || column_type(col)
                    == "bigserial"@ || column_type(col) == "smallserial"@ {
                    before.filter_map(f).push(
                        ViolationView {
                            operation: "CREATE TABLE with SERIAL"@,
                            problem: fill(
                                create_table_serial::PROBLEM@,
                                seq![table_of(stmt.relation), col.colname@, column_type(col)],
                            ),
                            safe_alternative: create_table_serial::serial_advice(
                                table_of(stmt.relation),
                                col,
                                config,
                                create_table_serial::primary_key_columns(stmt.table_elts@),
                            ),
                            severity: Severity::Error,
                            check_name: Seq::empty(),
                        },
                    )
                } else {
                    before.filter_map(f)
                },
                _ => before.filter_map(f),
            }
        }),
        forall|ctx: ContextView| #[trigger]
            Builtin::CreateTableSerial.violations(NodeEnum::CreateStmt(stmt), config, ctx)
                == stmt.table_elts@.filter_map(create_table_serial::serial_element(stmt, config)),
{
    let f = serial_element(stmt, config);
    assert(before.push(elt).drop_last() =~= before);
    assert(before.push(elt).filter_map(f) =~= match f(elt) {
        Some(v) => before.filter_map(f).push(v),
        None => before.filter_map(f),
    });
}

/// The advice for a serial column keeps its constraints: PRIMARY KEY if the column alone is the primary
/// key, by a constraint of its own or of the table, and otherwise NOT NULL and UNIQUE as far as the
/// column has them. The integer type is as wide as the serial type. Before version 10 a sequence is
/// advised, from then on an identity column.
pub proof fn law_serial_advice_keeps_the_constraints(
    table: Seq<char>,
    col: ColumnDef,
    config: Config,
    primary_key: Seq<Seq<char>>,
)
    ensures
        ({
            let has = |contype: ConstrType|
                exists|k: int|
                    0 <= k < col.constraints@.len() && (
                    #[trigger] col.constraints@[k] matches NodeEnum::Constraint(c) && c.contype
                        == contype);
            let data_type = if column_type(col) == "bigserial"@ {
                "BIGINT"@
            } else if column_type(col) == "smallserial"@ {
                "SMALLINT"@
            } else {
                "INTEGER"@
            };
            let suffix = if has(ConstrType::ConstrPrimary) || primary_key =~= seq![col.colname@] {
                " PRIMARY KEY"@
            } else if has(ConstrType::ConstrNotnull) && has(ConstrType::ConstrUnique) {
                " NOT NULL UNIQUE"@
            } else if has(ConstrType::ConstrNotnull) {
                " NOT NULL"@
            } else if has(ConstrType::ConstrUnique) {
                " UNIQUE"@
            } else {
                ""@
            };
            create_table_serial::serial_advice(table, col, config, primary_key) == match config.postgres_version {
                Some(version) if version < 10 => fill(
                    create_table_serial::SEQUENCE_ADVICE@,
                    seq![table, col.colname@, data_type, suffix, decimal(version as nat)],
                ),
                _ => fill(
                    create_table_serial::IDENTITY_ADVICE@,
                    seq![table, col.colname@, data_type, suffix],
                ),
            }
        }),
{
    reveal_strlit("bigserial");
    reveal_strlit("smallserial");
    assert("bigserial"@.len() != "smallserial"@.len());
    if primary_key.len() == 1 && primary_key.contains(col.colname@) {
        assert(primary_key =~= seq![col.colname@]);
    }
    if primary_key =~= seq![col.colname@] {
        assert(primary_key[0] == col.colname@);
        assert(primary_key.contains(col.colname@));
    }
}

/// The columns of the primary key of a table are those of its first primary key constraint; a table
/// without one has none.
pub proof fn law_the_primary_key_columns(elts: Seq<NodeEnum>, k: int, c: Constraint)
    requires
        0 <= k < elts.len(),
        elts[k] == NodeEnum::Constraint(c),
        c.contype == ConstrType::ConstrPrimary,
        forall|j: int|
            0 <= j < k ==> !(#[trigger] elts[j] matches NodeEnum::Constraint(d) && d.contype
                == ConstrType::ConstrPrimary),
    ensures
        create_table_serial::primary_key_columns(elts) == strings_of(c.keys@),
{
    lemma_primary_key(elts, 0, k, c);
}

proof fn lemma_primary_key(elts: Seq<NodeEnum>, from: int, k: int, c: Constraint)
    requires
        0 <= from <= k < elts.len(),
        elts[k] == NodeEnum::Constraint(c),
        c.contype == ConstrType::ConstrPrimary,
        forall|j: int|
            from <= j < k ==> !(#[trigger] elts[j] matches NodeEnum::Constraint(d) && d.contype
                == ConstrType::ConstrPrimary),
    ensures
        create_table_serial::primary_key_from(elts, from) == strings_of(c.keys@),
    decreases k - from,
{
    if from < k {
        assert(!(elts[from] matches NodeEnum::Constraint(d) && d.contype
            == ConstrType::ConstrPrimary));
        lemma_primary_key(elts, from + 1, k, c);
    }
}

/// A table without a primary key constraint of its own names no columns for it.
pub proof fn law_no_primary_key_columns(elts: Seq<NodeEnum>)
    requires
        forall|j: int|
            0 <= j < elts.len() ==> !(#[trigger] elts[j] matches NodeEnum::Constraint(d)
                && d.contype == ConstrType::ConstrPrimary),
    ensures
        create_table_serial::primary_key_columns(elts).len() == 0,
{
    lemma_no_primary_key(elts, 0);
}

proof fn lemma_no_primary_key(elts: Seq<NodeEnum>, from: int)
    requires
        0 <= from <= elts.len(),
        forall|j: int|
            from <= j < elts.len() ==> !(#[trigger] elts[j] matches NodeEnum::Constraint(d)
                && d.contype == ConstrType::ConstrPrimary),
    ensures
        create_table_serial::primary_key_from(elts, from).len() == 0,
    decreases elts.len() - from,
{
    if from < elts.len() {
        assert(!(elts[from] matches NodeEnum::Constraint(d) && d.contype
            == ConstrType::ConstrPrimary));
        lemma_no_primary_key(elts, from + 1);
    }
}

/// CREATE TABLE is reported for want of IF NOT EXISTS exactly if it has none.
pub proof fn law_unguarded_tables_are_reported(stmt: CreateStmt, config: Config, ctx: ContextView)
    ensures
        Builtin::IdempotencyCreate.violations(NodeEnum::CreateStmt(stmt), config, ctx)
            == if stmt.if_not_exists {
            Seq::empty()
        } else {
            seq![
                finding(
                    "CREATE TABLE without IF NOT EXISTS"@,
                    idempotency_create::PROBLEM@,
                    idempotency_create::SAFE_ALTERNATIVE@,
                    seq![
                        match stmt.relation {
                            Some(rv) => relation_name(rv),
                            None => "<table_name>"@,
                        },
                    ],
                ),
            ]
        },
{
}

// ---------------------------------------------------------------------------
// Indexes
// ---------------------------------------------------------------------------

/// Creating an index blocks writes unless it is done concurrently, and cannot be done concurrently
/// inside a transaction; either is reported, once. The advice for the first case says how to leave the
/// transaction if there is one.
pub proof fn law_blocking_indexes_are_reported(stmt: IndexStmt, config: Config, ctx: ContextView)
    ensures
        ({
            let args = seq![
                if stmt.unique {
                    "UNIQUE "@
                } else {
                    ""@
                },
                if stmt.idxname@.len() == 0 {
                    "<unnamed>"@
                } else {
                    stmt.idxname@
                },
                table_of(stmt.relation),
            ];
            Builtin::AddIndex.violations(NodeEnum::IndexStmt(stmt), config, ctx)
                == if !stmt.concurrent {
                seq![
                    ViolationView {
                        operation: "ADD INDEX without CONCURRENTLY"@,
                        problem: fill(add_index::PROBLEM@, args),
                        safe_alternative: concurrent_advice(fill(add_index::SUGGESTION@, args), ctx),
                        severity: Severity::Error,
                        check_name: Seq::empty(),
                    },
                ]
            } else if ctx.run_in_transaction {
                seq![
                    ViolationView {
                        operation: "CREATE INDEX CONCURRENTLY inside a transaction"@,
                        problem: fill(add_index::TRANSACTION_PROBLEM@, args),
                        safe_alternative: ctx.no_transaction_hint,
                        severity: Severity::Error,
                        check_name: Seq::empty(),
                    },
                ]
            } else {
                Seq::empty()
            }
        }),
{
}

/// CREATE INDEX is reported for want of IF NOT EXISTS exactly if it has none.
pub proof fn law_unguarded_indexes_are_reported(stmt: IndexStmt, config: Config, ctx: ContextView)
    ensures
        ({
            let table = match stmt.relation {
                Some(rv) => relation_name(rv),
                None => "<table_name>"@,
            };
            let concurrently = if stmt.concurrent {
                " CONCURRENTLY"@
            } else {
                ""@
            };
            let args = if stmt.idxname@.len() == 0 {
                seq![table, "<unnamed>"@, "<index_name>"@, concurrently]
            } else {
                seq![table, stmt.idxname@, stmt.idxname@, concurrently]
            };
            Builtin::IdempotencyIndex.violations(NodeEnum::IndexStmt(stmt), config, ctx)
                == if stmt.if_not_exists {
                Seq::empty()
            } else {
                seq![
                    finding(
                        "CREATE INDEX without IF NOT EXISTS"@,
                        idempotency_index::PROBLEM@,
                        idempotency_index::SAFE_ALTERNATIVE@,
                        args,
                    ),
                ]
            }
        }),
{
}

/// An index is reported as wide exactly if it has four columns or more.
pub proof fn law_wide_indexes_are_reported(stmt: IndexStmt, config: Config, ctx: ContextView)
    ensures
        ({
            let columns = index_columns(stmt.index_params@);
            Builtin::WideIndex.violations(NodeEnum::IndexStmt(stmt), config, ctx)
                == if columns.len() >= 4 {
                seq![
                    finding(
                        "CREATE INDEX with too many columns"@,
                        wide_index::PROBLEM@,
                        wide_index::SAFE_ALTERNATIVE@,
                        seq![
                            table_of(stmt.relation),
                            if stmt.idxname@.len() == 0 {
                                "<unnamed>"@
                            } else {
                                stmt.idxname@
                            },
                            decimal(columns.len()),
                            join(columns, ", "@),
                            columns[0],
                            columns[1],
                            join(columns.skip(1), ", "@),
                        ],
                    ),
                ]
            } else {
                Seq::empty()
            }
        }),
{
}

/// The columns of an index are its elements, in their order: by name, or as a placeholder where one is
/// an expression.
pub proof fn law_index_columns_are_its_elements(params: Seq<NodeEnum>, param: NodeEnum)
    ensures
        index_columns(Seq::empty()) == Seq::<Seq<char>>::empty(),
        index_columns(params.push(param)) == match param {
            NodeEnum::IndexElem(elem) => index_columns(params).push(
                if elem.name@.len() == 0 {
                    "<expr>"@
                } else {
                    elem.name@
                },
            ),
            _ => index_columns(params),
        },
{
    assert(params.push(param).drop_last() =~= params);
    let f = index_column();
    assert(params.push(param).filter_map(f) =~= match f(param) {
        Some(v) => params.filter_map(f).push(v),
        None => params.filter_map(f),
    });
}

// ---------------------------------------------------------------------------
// DROP
// ---------------------------------------------------------------------------

proof fn lemma_drops<R: DropRule>(rule: R, stmt: DropStmt, ctx: ContextView)
    ensures
        drop_violations(rule, stmt, ctx).len() == object_names(stmt.objects@).len(),
        forall|i: int|
            0 <= i < object_names(stmt.objects@).len() ==> #[trigger] drop_violations(
                rule,
                stmt,
                ctx,
            )[i] == rule.report(stmt, ctx, object_names(stmt.objects@)[i]),
{
}

/// Each table that is dropped is reported, in their order; a drop of another kind is not.
pub proof fn law_dropped_tables_are_reported(
    stmt: DropStmt,
    config: Config,
    ctx: ContextView,
    i: int,
)
    requires
        0 <= i < object_names(stmt.objects@).len(),
    ensures
        ({
            let reported = Builtin::DropTable.violations(NodeEnum::DropStmt(stmt), config, ctx);
            if stmt.remove_type == ObjectType::ObjectTable {
                &&& reported.len() == object_names(stmt.objects@).len()
                &&& reported[i] == finding(
                    "DROP TABLE"@,
                    drop_table::PROBLEM@,
                    drop_table::SAFE_ALTERNATIVE@,
                    seq![
                        object_names(stmt.objects@)[i],
                        if stmt.missing_ok {
                            " IF EXISTS"@
                        } else {
                            ""@
                        },
                        match stmt.behavior {
                            DropBehavior::DropCascade => " CASCADE"@,
                            DropBehavior::DropRestrict => " RESTRICT"@,
                            DropBehavior::Undefined => ""@,
                        },
                    ],
                )
            } else {
                reported.len() == 0
            }
        }),
{
    lemma_drops(drop_table::DropTableCheck, stmt, ctx);
}

/// Each index that is dropped is reported unless it is done concurrently and outside a transaction; a
/// drop of another kind is not.
pub proof fn law_dropped_indexes_are_reported(
    stmt: DropStmt,
    config: Config,
    ctx: ContextView,
    i: int,
)
    requires
        0 <= i < object_names(stmt.objects@).len(),
    ensures
        ({
            let reported = Builtin::DropIndex.violations(NodeEnum::DropStmt(stmt), config, ctx);
            let args = seq![
                object_names(stmt.objects@)[i],
                if stmt.missing_ok {
                    " IF EXISTS"@
                } else {
                    ""@
                },
            ];
            if stmt.remove_type == ObjectType::ObjectIndex && !stmt.concurrent {
                &&& reported.len() == object_names(stmt.objects@).len()
                &&& reported[i] == ViolationView {
                    operation: "DROP INDEX without CONCURRENTLY"@,
                    problem: fill(drop_index::PROBLEM@, args),
                    safe_alternative: concurrent_advice(fill(drop_index::SUGGESTION@, args), ctx),
                    severity: Severity::Error,
                    check_name: Seq::empty(),
                }
            } else if stmt.remove_type == ObjectType::ObjectIndex && ctx.run_in_transaction {
                &&& reported.len() == object_names(stmt.objects@).len()
                &&& reported[i] == ViolationView {
                    operation: "DROP INDEX CONCURRENTLY inside a transaction"@,
                    problem: fill(drop_index::TRANSACTION_PROBLEM@, args),
                    safe_alternative: ctx.no_transaction_hint,
                    severity: Severity::Error,
                    check_name: Seq::empty(),
                }
            } else {
                reported.len() == 0
            }
        }),
{
    lemma_drops(drop_index::DropIndexCheck, stmt, ctx);
}

/// Each table or index that is dropped without IF EXISTS is reported for want of it; a drop of another
/// kind, or with IF EXISTS, is not.
pub proof fn law_unguarded_drops_are_reported(
    stmt: DropStmt,
    config: Config,
    ctx: ContextView,
    i: int,
)
    requires
        0 <= i < object_names(stmt.objects@).len(),
    ensures
        ({
            let reported = Builtin::IdempotencyDrop.violations(
                NodeEnum::DropStmt(stmt),
                config,
                ctx,
            );
            let name = object_names(stmt.objects@)[i];
            let behavior = match stmt.behavior {
                DropBehavior::DropCascade => " CASCADE"@,
                DropBehavior::DropRestrict => " RESTRICT"@,
                DropBehavior::Undefined => ""@,
            };
            let concurrently = if stmt.concurrent {
                " CONCURRENTLY"@
            } else {
                ""@
            };
            let named = |template: Seq<char>|
                replace_all(
                    replace_all(
                        replace_all(template, "{name}"@, name),
                        "{concurrently}"@,
                        concurrently,
                    ),
                    "{behavior}"@,
                    behavior,
                );
            if !stmt.missing_ok && stmt.remove_type == ObjectType::ObjectTable {
                &&& reported.len() == object_names(stmt.objects@).len()
                &&& reported[i] == finding(
                    "DROP TABLE without IF EXISTS"@,
                    idempotency_drop::PROBLEM@,
                    idempotency_drop::SAFE_ALTERNATIVE@,
                    seq![
                        name,
                        "DROP TABLE without IF EXISTS"@,
                        named(idempotency_drop::DROP_TABLE_SQL@),
                    ],
                )
            } else if !stmt.missing_ok && stmt.remove_type == ObjectType::ObjectIndex {
                &&& reported.len() == object_names(stmt.objects@).len()
                &&& reported[i] == finding(
                    "DROP INDEX without IF EXISTS"@,
                    idempotency_drop::PROBLEM@,
                    idempotency_drop::SAFE_ALTERNATIVE@,
                    seq![
                        name,
                        "DROP INDEX without IF EXISTS"@,
                        named(idempotency_drop::DROP_INDEX_SQL@),
                    ],
                )
            } else {
                reported.len() == 0
            }
        }),
{
    lemma_drops(idempotency_drop::IdempotencyDropCheck, stmt, ctx);
}

/// The objects of a DROP are the lists of names that it holds, in their order; the segments of a name
/// are joined by dots.
pub proof fn law_dropped_objects_are_named_in_full(objects: Seq<NodeEnum>, object: NodeEnum)
    ensures
        object_names(Seq::empty()) == Seq::<Seq<char>>::empty(),
        object_names(objects.push(object)) == match object {
            NodeEnum::List(items) => object_names(objects).push(join(strings_of(items@), "."@)),
            _ => object_names(objects),
        },
{
    assert(objects.push(object).drop_last() =~= objects);
    let f = object_name();
    assert(objects.push(object).filter_map(f) =~= match f(object) {
        Some(v) => objects.filter_map(f).push(v),
        None => objects.filter_map(f),
    });
}

/// DROP DATABASE is always reported.
pub proof fn law_dropped_databases_are_reported(stmt: DropdbStmt, config: Config, ctx: ContextView)
    ensures
        Builtin::DropDatabase.violations(NodeEnum::DropdbStmt(stmt), config, ctx) == seq![
            finding(
                "DROP DATABASE"@,
                drop_database::PROBLEM@,
                drop_database::SAFE_ALTERNATIVE@,
                seq![
                    stmt.dbname@,
                    if stmt.missing_ok {
                        " IF EXISTS"@
                    } else {
                        ""@
                    },
                ],
            ),
        ],
{
}

// ---------------------------------------------------------------------------
// Other statements
// ---------------------------------------------------------------------------

/// DELETE and UPDATE are reported exactly if they have no WHERE.
pub proof fn law_unlimited_mutations_are_reported(
    delete: DeleteStmt,
    update: UpdateStmt,
    config: Config,
    ctx: ContextView,
)
    ensures
        Builtin::MutationWithoutWhere.violations(NodeEnum::DeleteStmt(delete), config, ctx)
            == if delete.where_clause is Some {
            Seq::empty()
        } else {
            seq![
                finding(
                    "DELETE without WHERE"@,
                    mutation_without_where::DELETE_PROBLEM@,
                    mutation_without_where::DELETE_SAFE_ALTERNATIVE@,
                    seq![table_of(delete.relation)],
                ),
            ]
        },
        Builtin::MutationWithoutWhere.violations(NodeEnum::UpdateStmt(update), config, ctx)
            == if update.where_clause is Some {
            Seq::empty()
        } else {
            seq![
                finding(
                    "UPDATE without WHERE"@,
                    mutation_without_where::UPDATE_PROBLEM@,
                    mutation_without_where::UPDATE_SAFE_ALTERNATIVE@,
                    seq![table_of(update.relation)],
                ),
            ]
        },
{
}

/// Refreshing a materialized view is reported unless it is done concurrently and outside a transaction.
pub proof fn law_blocking_refreshes_are_reported(
    stmt: RefreshMatViewStmt,
    config: Config,
    ctx: ContextView,
)
    ensures
        ({
            let args = seq![table_of(stmt.relation)];
            Builtin::RefreshMatView.violations(NodeEnum::RefreshMatViewStmt(stmt), config, ctx)
                == if !stmt.concurrent {
                seq![
                    ViolationView {
                        operation: "REFRESH MATERIALIZED VIEW without CONCURRENTLY"@,
                        problem: fill(refresh_matview::PROBLEM@, args),
                        safe_alternative: concurrent_advice(
                            fill(refresh_matview::SUGGESTION@, args),
                            ctx,
                        ),
                        severity: Severity::Error,
                        check_name: Seq::empty(),
                    },
                ]
            } else if ctx.run_in_transaction {
                seq![
                    ViolationView {
                        operation: "REFRESH MATERIALIZED VIEW CONCURRENTLY inside a transaction"@,
                        problem: fill(refresh_matview::TRANSACTION_PROBLEM@, args),
                        safe_alternative: ctx.no_transaction_hint,
                        severity: Severity::Error,
                        check_name: Seq::empty(),
                    },
                ]
            } else {
                Seq::empty()
            }
        }),
{
}

/// Reindexing an index, a table, a schema or a database is reported unless it is done concurrently and
/// outside a transaction; reindexing the system catalogs is not. An index and a table are called by the
/// name of the relation, the others by their own.
pub proof fn law_blocking_reindexes_are_reported(
    stmt: ReindexStmt,
    config: Config,
    ctx: ContextView,
)
    ensures
        ({
            let reported = Builtin::Reindex.violations(NodeEnum::ReindexStmt(stmt), config, ctx);
            let concurrently = exists|k: int|
                0 <= k < stmt.params@.len() && (
                #[trigger] stmt.params@[k] matches NodeEnum::DefElem(elem) && elem.defname@
                    == "concurrently"@);
            let relation = match stmt.relation {
                Some(rv) => rv.relname@,
                None => Seq::empty(),
            };
            let args = if stmt.kind == 1 {
                seq!["INDEX"@, relation]
            } else if stmt.kind == 2 {
                seq!["TABLE"@, relation]
            } else if stmt.kind == 3 {
                seq!["SCHEMA"@, stmt.name@]
            } else {
                seq!["DATABASE"@, stmt.name@]
            };
            if stmt.kind != 1 && stmt.kind != 2 && stmt.kind != 3 && stmt.kind != 5 {
                reported.len() == 0
            } else if !concurrently {
                reported == seq![
                    ViolationView {
                        operation: "REINDEX without CONCURRENTLY"@,
                        problem: fill(reindex::PROBLEM@, args),
                        safe_alternative: concurrent_advice(fill(reindex::SUGGESTION@, args), ctx),
                        severity: Severity::Error,
                        check_name: Seq::empty(),
                    },
                ]
            } else if ctx.run_in_transaction {
                reported == seq![
                    ViolationView {
                        operation: "REINDEX CONCURRENTLY inside a transaction"@,
                        problem: fill(reindex::TRANSACTION_PROBLEM@, args),
                        safe_alternative: ctx.no_transaction_hint,
                        severity: Severity::Error,
                        check_name: Seq::empty(),
                    },
                ]
            } else {
                reported.len() == 0
            }
        }),
{
}

/// RENAME COLUMN is reported; renaming anything else is not.
pub proof fn law_renamed_columns_are_reported(stmt: RenameStmt, config: Config, ctx: ContextView)
    ensures
        Builtin::RenameColumn.violations(NodeEnum::RenameStmt(stmt), config, ctx)
            == if stmt.rename_type == ObjectType::ObjectColumn {
            seq![
                finding(
                    "RENAME COLUMN"@,
                    rename_column::PROBLEM@,
                    rename_column::SAFE_ALTERNATIVE@,
                    seq![table_of(stmt.relation), stmt.subname@, stmt.newname@],
                ),
            ]
        } else {
            Seq::empty()
        },
{
}

/// Each table that is truncated is reported, in their order.
pub proof fn law_truncated_tables_are_reported(
    relations: Seq<NodeEnum>,
    relation: NodeEnum,
    stmt: TruncateStmt,
    config: Config,
    ctx: ContextView,
)
    ensures
        Builtin::TruncateTable.violations(NodeEnum::TruncateStmt(stmt), config, ctx)
            == stmt.relations@.filter_map(truncated()),
        relations.push(relation).filter_map(truncated()) == match relation {
            NodeEnum::RangeVar(rv) => relations.filter_map(truncated()).push(
                finding(
                    "TRUNCATE TABLE"@,
                    truncate_table::PROBLEM@,
                    truncate_table::SAFE_ALTERNATIVE@,
                    seq![relation_name(rv)],
                ),
            ),
            _ => relations.filter_map(truncated()),
        },
{
    assert(relations.push(relation).drop_last() =~= relations);
    let f = truncated();
    assert(relations.push(relation).filter_map(f) =~= match f(relation) {
        Some(v) => relations.filter_map(f).push(v),
        None => relations.filter_map(f),
    });
}

/// A check constraint that is added to a domain is reported unless it is NOT VALID; nothing else that
/// is done to a domain is.
pub proof fn law_domain_checks_are_reported(
    stmt: AlterDomainStmt,
    config: Config,
    ctx: ContextView,
)
    ensures
        ({
            let reported = Builtin::AddDomainCheckConstraint.violations(
                NodeEnum::AlterDomainStmt(stmt),
                config,
                ctx,
            );
            match stmt.def {
                Some(n) => match *n {
                    NodeEnum::Constraint(c) => if stmt.subtype@ == "C"@ && c.contype
                        == ConstrType::ConstrCheck && c.initially_valid {
                        reported == seq![
                            finding(
                                "ADD CHECK CONSTRAINT TO DOMAIN"@,
                                add_domain_check_constraint::PROBLEM@,
                                add_domain_check_constraint::SAFE_ALTERNATIVE@,
                                seq![
                                    join(strings_of(stmt.typename@), "."@),
                                    if c.conname@.len() == 0 {
                                        "<unnamed>"@
                                    } else {
                                        c.conname@
                                    },
                                ],
                            ),
                        ]
                    } else {
                        reported.len() == 0
                    },
                    _ => reported.len() == 0,
                },
                None => reported.len() == 0,
            }
        }),
{
}

/// A check reports nothing of statements that it is not about.
pub proof fn law_checks_keep_to_their_statements(
    check: Builtin,
    node: NodeEnum,
    config: Config,
    ctx: ContextView,
)
    requires
        match check {
            Builtin::AddIndex | Builtin::IdempotencyIndex | Builtin::WideIndex => node !is IndexStmt,
            Builtin::CreateTableSerial | Builtin::CreateTableWithoutPk
            | Builtin::IdempotencyCreate => node !is CreateStmt,
            Builtin::DropIndex | Builtin::DropTable | Builtin::IdempotencyDrop => node !is DropStmt,
            Builtin::DropDatabase => node !is DropdbStmt,
            Builtin::MutationWithoutWhere => node !is DeleteStmt && node !is UpdateStmt,
            Builtin::RefreshMatView => node !is RefreshMatViewStmt,
            Builtin::Reindex => node !is ReindexStmt,
            Builtin::RenameColumn => node !is RenameStmt,
            Builtin::TruncateTable => node !is TruncateStmt,
            Builtin::AddDomainCheckConstraint => node !is AlterDomainStmt,
            Builtin::CharType => node !is AlterTableStmt && node !is CreateStmt,
            _ => node !is AlterTableStmt,
        },
    ensures
        check.violations(node, config, ctx).len() == 0,
{
}

// ---------------------------------------------------------------------------
// Names
// ---------------------------------------------------------------------------

/// A relation is called by its name, with the schema and a dot before it if the statement gives one. A
/// statement without a relation has no table.
pub proof fn law_relations_are_named_in_full(rv: RangeVar)
    ensures
        relation_name(rv) == if rv.schemaname@.len() == 0 {
            rv.relname@
        } else {
            rv.schemaname@ + seq!['.'] + rv.relname@
        },
        table_of(Some(rv)) == relation_name(rv),
        table_of(None) == Seq::<char>::empty(),
{
}

/// The strings of a list of nodes are those of its string nodes, in their order.
pub proof fn law_strings_are_read_in_order(nodes: Seq<NodeEnum>, node: NodeEnum)
    ensures
        strings_of(Seq::empty()) == Seq::<Seq<char>>::empty(),
        strings_of(nodes.push(node)) == match node {
            NodeEnum::String(s) => strings_of(nodes).push(s@),
            _ => strings_of(nodes),
        },
{
    assert(nodes.push(node).drop_last() =~= nodes);
    let f = node_string();
    assert(nodes.push(node).filter_map(f) =~= match f(node) {
        Some(v) => nodes.filter_map(f).push(v),
        None => nodes.filter_map(f),
    });
}

/// The type of a column is the last segment of the type's name, without the schema before it. A column
/// without a type has none.
pub proof fn law_types_are_named_without_schema(col: ColumnDef, tn: TypeName)
    ensures
        col.typename is None ==> column_type(col).len() == 0,
        col.typename == Some(tn) && strings_of(tn.names@).len() == 0 ==> column_type(col).len() == 0,
        col.typename == Some(tn) && strings_of(tn.names@).len() > 0 ==> column_type(col)
            == strings_of(tn.names@)[strings_of(tn.names@).len() - 1],
{
}

/// What to do instead of a blocking operation says how to leave the transaction exactly if there is
/// one.
pub proof fn law_advice_names_the_transaction(suggestion: Seq<char>, ctx: ContextView)
    ensures
        concurrent_advice(suggestion, ctx) == if ctx.run_in_transaction {
            fill(TRANSACTION_NOTE@, seq![suggestion, ctx.no_transaction_hint])
        } else {
            suggestion
        },
{
}

/// What a check finds is an error, not yet attributed to the check, and its two texts are the templates
/// filled with the same arguments.
pub proof fn law_findings_are_errors(
    operation: Seq<char>,
    problem: Seq<char>,
    advice: Seq<char>,
    args: Seq<Seq<char>>,
)
    ensures
        finding(operation, problem, advice, args) == (ViolationView {
            operation,
            problem: fill(problem, args),
            safe_alternative: fill(advice, args),
            severity: Severity::Error,
            check_name: Seq::empty(),
        }),
{
}

/// Each check is configured by its name.
pub proof fn law_checks_are_named()
    ensures
        Builtin::AddCheckConstraint.title() == "AddCheckConstraintCheck"@,
        Builtin::AddColumn.title() == "AddColumnCheck"@,
        Builtin::AddDomainCheckConstraint.title() == "AddDomainCheckConstraintCheck"@,
        Builtin::AddExcludeConstraint.title() == "AddExcludeConstraintCheck"@,
        Builtin::AddForeignKey.title() == "AddForeignKeyCheck"@,
        Builtin::AddIdentityColumn.title() == "AddIdentityColumnCheck"@,
        Builtin::AddIndex.title() == "AddIndexCheck"@,
        Builtin::AddJsonColumn.title() == "AddJsonColumnCheck"@,
        Builtin::AddNotNull.title() == "AddNotNullCheck"@,
        Builtin::AddPrimaryKey.title() == "AddPrimaryKeyCheck"@,
        Builtin::AddSerialColumn.title() == "AddSerialColumnCheck"@,
        Builtin::AddUniqueConstraint.title() == "AddUniqueConstraintCheck"@,
        Builtin::AlterColumnType.title() == "AlterColumnTypeCheck"@,
        Builtin::CharType.title() == "CharTypeCheck"@,
        Builtin::CreateExtension.title() == "CreateExtensionCheck"@,
        Builtin::CreateTableSerial.title() == "CreateTableSerialCheck"@,
        Builtin::CreateTableWithoutPk.title() == "CreateTableWithoutPkCheck"@,
        Builtin::DropColumn.title() == "DropColumnCheck"@,
        Builtin::DropDatabase.title() == "DropDatabaseCheck"@,
        Builtin::DropIndex.title() == "DropIndexCheck"@,
        Builtin::DropNotNull.title() == "DropNotNullCheck"@,
        Builtin::DropPrimaryKey.title() == "DropPrimaryKeyCheck"@,
        Builtin::DropTable.title() == "DropTableCheck"@,
        Builtin::GeneratedColumn.title() == "GeneratedColumnCheck"@,
        Builtin::IdempotencyAlter.title() == "IdempotencyAlterCheck"@,
        Builtin::IdempotencyCreate.title() == "IdempotencyCreateCheck"@,
        Builtin::IdempotencyDrop.title() == "IdempotencyDropCheck"@,
        Builtin::IdempotencyIndex.title() == "IdempotencyIndexCheck"@,
        Builtin::MutationWithoutWhere.title() == "MutationWithoutWhereCheck"@,
        Builtin::RefreshMatView.title() == "RefreshMatViewCheck"@,
        Builtin::Reindex.title() == "ReindexCheck"@,
        Builtin::RenameColumn.title() == "RenameColumnCheck"@,
        Builtin::RenameSchema.title() == "RenameSchemaCheck"@,
        Builtin::RenameTable.title() == "RenameTableCheck"@,
        Builtin::ShortIntegerPrimaryKey.title() == "ShortIntegerPrimaryKeyCheck"@,
        Builtin::TimestampType.title() == "TimestampTypeCheck"@,
        Builtin::TruncateTable.title() == "TruncateTableCheck"@,
        Builtin::UnnamedConstraint.title() == "UnnamedConstraintCheck"@,
        Builtin::WideIndex.title() == "WideIndexCheck"@,
{
}

} // verus!
