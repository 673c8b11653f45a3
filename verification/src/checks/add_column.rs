//! ADD COLUMN with a DEFAULT: rewrites the whole table before Postgres 11.
//!
//! From Postgres 11 on a constant default is safe.

use super::pg_helpers::{
    added_column_def, added_column_of, alter_table_cmds, cmds_of, column_type, column_type_name,
    table_of, ConstrType, NodeEnum,
};
use super::Check;
use crate::adapters::{ContextView, MigrationContext};
use crate::ast::{AConst, AlterTableCmd, ColumnDef, Constraint};
use crate::config::Config;
use crate::text::{same_text, signed_decimal, signed_decimal_text, views};
use crate::violation::{
    finding, no_violations, opt_view, violation_views, Violation, ViolationView,
};
use vstd::prelude::*;

verus! {

/// What the violation says of the problem.
pub const PROBLEM: &'static str =
    "Adding column '{1}' with DEFAULT on table '{0}' requires a full table rewrite on Postgres < 11, acquiring an ACCESS EXCLUSIVE lock.";

/// What the violation says to do instead.
pub const SAFE_ALTERNATIVE: &'static str =
    r"1. Add the column without a default:
   ALTER TABLE {0} ADD COLUMN {1} {2};

2. Backfill data in batches (outside migration):
   UPDATE {0} SET {1} = {3} WHERE {1} IS NULL;

3. Add default for new rows only:
   ALTER TABLE {0} ALTER COLUMN {1} SET DEFAULT {3};";

/// The first version on which a constant default needs no rewrite.
pub const FAST_DEFAULT_VERSION: u32 = 11;

pub struct AddColumnCheck;

/// The first DEFAULT among the constraints from `from` on.
pub open spec fn default_from(constraints: Seq<NodeEnum>, from: int) -> Option<Constraint>
    decreases constraints.len() - from,
{
    if from < 0 || from >= constraints.len() {
        None
    } else {
        match constraints[from] {
            NodeEnum::Constraint(c) if c.contype == ConstrType::ConstrDefault => Some(c),
            _ => default_from(constraints, from + 1),
        }
    }
}

/// The DEFAULT of a column, if it has one.
pub open spec fn column_default(col: ColumnDef) -> Option<Constraint> {
    default_from(col.constraints@, 0)
}

fn find_default(col: &ColumnDef) -> (r: Option<&Constraint>)
    ensures
        r matches Some(c) ==> column_default(*col) == Some(*c),
        r is None ==> column_default(*col) is None,
{
    let mut i: usize = 0;
    while i < col.constraints.len()
        invariant
            i <= col.constraints.len(),
            column_default(*col) == default_from(col.constraints@, i as int),
        decreases col.constraints.len() - i,
    {
        if let NodeEnum::Constraint(c) = &col.constraints[i] {
            if c.contype == ConstrType::ConstrDefault {
                return Some(c);
            }
        }
        i += 1;
    }
    None
}

/// Whether an expression is a literal, or a cast of one.
pub open spec fn is_constant(expr: NodeEnum) -> bool
    decreases expr,
{
    match expr {
        NodeEnum::AConst(_) => true,
        NodeEnum::TypeCast(inner) => is_constant(*inner),
        _ => false,
    }
}

fn constant_expression(expr: &NodeEnum) -> (r: bool)
    ensures
        r == is_constant(*expr),
    decreases expr,
{
    match expr {
        NodeEnum::AConst(_) => true,
        NodeEnum::TypeCast(inner) => constant_expression(inner),
        _ => false,
    }
}

/// Whether the configured version adds this default without a rewrite.
pub open spec fn is_fast_default(default: Constraint, config: Config) -> bool {
    (config.postgres_version matches Some(version) && version >= FAST_DEFAULT_VERSION) && (
    default.raw_expr matches Some(expr) && is_constant(*expr))
}

fn fast_default(default: &Constraint, config: &Config) -> (r: bool)
    ensures
        r == is_fast_default(*default, *config),
{
    if let Some(version) = config.postgres_version {
        if let Some(expr) = &default.raw_expr {
            return version >= FAST_DEFAULT_VERSION && constant_expression(expr);
        }
    }
    false
}

/// The data type of a column as it is written in a suggestion.
pub open spec fn written_type(col: ColumnDef) -> Seq<char> {
    if column_type(col) == "bool"@ {
        "BOOLEAN"@
    } else {
        column_type(col)
    }
}

fn type_text(col: &ColumnDef) -> (r: String)
    ensures
        r@ == written_type(*col),
{
    let name = column_type_name(col);
    if same_text(name.as_str(), "bool") {
        "BOOLEAN".to_string()
    } else {
        name
    }
}

/// The default as it is written in a suggestion: a boolean or integer literal as it stands, and a
/// stand-in for anything else.
pub open spec fn written_default(default: Constraint) -> Seq<char> {
    match default.raw_expr {
        Some(expr) => match *expr {
            NodeEnum::AConst(AConst::Boolean(b)) => if b {
                "true"@
            } else {
                "false"@
            },
            NodeEnum::AConst(AConst::Integer(n)) => signed_decimal(n as int),
            _ => "<value>"@,
        },
        None => "<value>"@,
    }
}

fn default_text(default: &Constraint) -> (r: String)
    ensures
        r@ == written_default(*default),
{
    if let Some(expr) = &default.raw_expr {
        if let NodeEnum::AConst(c) = &**expr {
            match c {
                AConst::Boolean(b) => {
                    return if *b {
                        "true".to_string()
                    } else {
                        "false".to_string()
                    };
                },
                AConst::Integer(n) => {
                    return signed_decimal_text(*n);
                },
                AConst::Other => {},
            }
        }
    }
    "<value>".to_string()
}

/// What is reported of a command.
pub open spec fn added_column(table: Seq<char>, config: Config) -> spec_fn(AlterTableCmd) -> Option<
    ViolationView,
> {
    |cmd: AlterTableCmd|
        match added_column_of(cmd) {
            Some(col) => match column_default(col) {
                Some(default) if !is_fast_default(default, config) => Some(
                    finding(
                        "ADD COLUMN with DEFAULT"@,
                        PROBLEM@,
                        SAFE_ALTERNATIVE@,
                        seq![table, col.colname@, written_type(col), written_default(default)],
                    ),
                ),
                _ => None,
            },
            None => None,
        }
}

fn check_command(table: &str, cmd: &AlterTableCmd, config: &Config) -> (r: Option<Violation>)
    ensures
        opt_view(r) == added_column(table@, *config)(*cmd),
{
    let Some(col) = added_column_def(cmd) else {
        return None;
    };
    let Some(default) = find_default(col) else {
        return None;
    };
    if fast_default(default, config) {
        return None;
    }
    let data_type = type_text(col);
    let value = default_text(default);
    let args: Vec<&str> = vec![table, col.colname.as_str(), data_type.as_str(), value.as_str()];
    assert(views(args@) =~= seq![table@, col.colname@, data_type@, value@]);
    Some(Violation::from_templates("ADD COLUMN with DEFAULT", PROBLEM, SAFE_ALTERNATIVE, &args))
}

impl Check for AddColumnCheck {
    open spec fn title(&self) -> Seq<char> {
        "AddColumnCheck"@
    }

    open spec fn violations(
        &self,
        node: NodeEnum,
        config: Config,
        ctx: ContextView,
    ) -> Seq<ViolationView> {
        match node {
            NodeEnum::AlterTableStmt(alter) => cmds_of(alter).filter_map(
                added_column(table_of(alter.relation), config),
            ),
            _ => Seq::empty(),
        }
    }

    fn name(&self) -> (r: &str) {
        "AddColumnCheck"
    }

    fn check(&self, node: &NodeEnum, config: &Config, ctx: &MigrationContext) -> (r: Vec<Violation>) {
        let Some(found) = alter_table_cmds(node) else {
            return no_violations();
        };
        let (table, cmds) = found;
        let ghost all = cmds@.unref();
        let ghost f = added_column(table@, *config);
        let mut r: Vec<Violation> = Vec::new();
        let mut i: usize = 0;
        assert(violation_views(r@) =~= all.take(0).filter_map(f));
        while i < cmds.len()
            invariant
                i <= cmds.len(),
                all == cmds@.unref(),
                f == added_column(table@, *config),
                violation_views(r@) == all.take(i as int).filter_map(f),
            decreases cmds.len() - i,
        {
            let ghost before = r@;
            proof {
                all.lemma_filter_map_take_succ(f, i as int);
            }
            if let Some(v) = check_command(table.as_str(), cmds[i], config) {
                r.push(v);
                assert(violation_views(r@) =~= violation_views(before).push(v@));
            }
            i += 1;
        }
        assert(all.take(all.len() as int) =~= all);
        r
    }
}

} // verus!
