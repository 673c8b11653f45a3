//! CREATE TABLE with a SERIAL pseudo-type, which identity columns have replaced.

use super::pg_helpers::{
    column_has_constraint, column_type, column_type_name, has_constraint, is_serial_name,
    is_serial_pattern, node_strings, strings_of, table_name, table_of, ConstrType, NodeEnum,
};
use super::Check;
use crate::adapters::{ContextView, MigrationContext};
use crate::ast::{ColumnDef, CreateStmt};
use crate::config::{list_contains, Config};
use crate::text::{
    decimal, decimal_text, fill, fill_template, same_text, string_views, views,
};
use crate::violation::{no_violations, violation_views, Violation, ViolationView};
use vstd::prelude::*;

verus! {

/// What the violation says of the problem.
pub const PROBLEM: &'static str =
    "Column '{1}' in CREATE TABLE '{0}' uses {2} which is a PostgreSQL pseudo-type (non-standard SQL). \
                            SERIAL also creates a separately-owned sequence object, which can complicate permissions, dump/restore, and replication workflows.";

/// What to do instead before PostgreSQL 10.
pub const SEQUENCE_ADVICE: &'static str =
    "Identity columns require PostgreSQL 10+.\n\
If you must support PostgreSQL {4}, use an explicit integer column and sequence instead:\n\
1. CREATE TABLE {0} ({1} {2}{3});\n\
2. CREATE SEQUENCE {0}_{1}_seq;\n\
3. ALTER SEQUENCE {0}_{1}_seq OWNED BY {0}.{1};\n\
4. ALTER TABLE {0} ALTER COLUMN {1} SET DEFAULT nextval('{0}_{1}_seq');";

/// What to do instead from PostgreSQL 10 on.
pub const IDENTITY_ADVICE: &'static str =
    "Use SQL-standard identity columns instead:\n   CREATE TABLE {0} ({1} {2} GENERATED BY DEFAULT AS IDENTITY{3});";

pub struct CreateTableSerialCheck;

/// How a column takes part in the primary key.
#[derive(Clone, Copy, PartialEq, Eq, Structural)]
pub enum ColumnConstraintContext {
    /// It is the primary key.
    Standalone,
    /// It is one of several columns of the primary key.
    Composite,
    /// It is not in the primary key.
    Regular,
}

/// The columns of the first primary key constraint among the elements from `from` on.
pub open spec fn primary_key_from(elts: Seq<NodeEnum>, from: int) -> Seq<Seq<char>>
    decreases elts.len() - from,
{
    if from < 0 || from >= elts.len() {
        Seq::empty()
    } else {
        match elts[from] {
            NodeEnum::Constraint(c) if c.contype == ConstrType::ConstrPrimary => strings_of(c.keys@),
            _ => primary_key_from(elts, from + 1),
        }
    }
}

/// The columns of the primary key that a table definition states as a constraint of its own.
pub open spec fn primary_key_columns(elts: Seq<NodeEnum>) -> Seq<Seq<char>> {
    primary_key_from(elts, 0)
}

fn table_primary_key(stmt: &CreateStmt) -> (r: Vec<String>)
    ensures
        string_views(r@) == primary_key_columns(stmt.table_elts@),
{
    let mut i: usize = 0;
    while i < stmt.table_elts.len()
        invariant
            i <= stmt.table_elts.len(),
            primary_key_columns(stmt.table_elts@) == primary_key_from(stmt.table_elts@, i as int),
        decreases stmt.table_elts.len() - i,
    {
        if let NodeEnum::Constraint(c) = &stmt.table_elts[i] {
            if c.contype == ConstrType::ConstrPrimary {
                return node_strings(&c.keys);
            }
        }
        i += 1;
    }
    let r: Vec<String> = Vec::new();
    assert(string_views(r@) =~= Seq::<Seq<char>>::empty());
    r
}

/// How a column takes part in the primary key, which is stated on the column or on the table.
pub open spec fn constraint_context(col: ColumnDef, primary_key: Seq<Seq<char>>) -> ColumnConstraintContext {
    if has_constraint(col, ConstrType::ConstrPrimary) {
        ColumnConstraintContext::Standalone
    } else if !primary_key.contains(col.colname@) {
        ColumnConstraintContext::Regular
    } else if primary_key.len() == 1 {
        ColumnConstraintContext::Standalone
    } else {
        ColumnConstraintContext::Composite
    }
}

fn column_constraint_context(col: &ColumnDef, primary_key: &Vec<String>) -> (r:
    ColumnConstraintContext)
    ensures
        r == constraint_context(*col, string_views(primary_key@)),
{
    if column_has_constraint(col, ConstrType::ConstrPrimary) {
        return ColumnConstraintContext::Standalone;
    }
    let listed = list_contains(primary_key, col.colname.as_str());
    proof {
        let keys = string_views(primary_key@);
        assert(listed == keys.contains(col.colname@)) by {
            if listed {
                let i = choose|i: int|
                    0 <= i < primary_key@.len() && #[trigger] primary_key@[i]@ == col.colname@;
                assert(keys[i] == col.colname@);
            } else if keys.contains(col.colname@) {
                let i = choose|i: int| 0 <= i < keys.len() && keys[i] == col.colname@;
                assert(primary_key@[i]@ == col.colname@);
            }
        }
    }
    if !listed {
        return ColumnConstraintContext::Regular;
    }
    if primary_key.len() == 1 {
        ColumnConstraintContext::Standalone
    } else {
        ColumnConstraintContext::Composite
    }
}

/// The integer type behind a SERIAL pseudo-type.
pub open spec fn integer_type(serial_type: Seq<char>) -> Seq<char> {
    if serial_type == "smallserial"@ {
        "SMALLINT"@
    } else if serial_type == "bigserial"@ {
        "BIGINT"@
    } else {
        "INTEGER"@
    }
}

pub fn identity_sql_type(serial_type: &str) -> (r: &'static str)
    ensures
        r@ == integer_type(serial_type@),
{
    if same_text(serial_type, "smallserial") {
        "SMALLINT"
    } else if same_text(serial_type, "bigserial") {
        "BIGINT"
    } else {
        "INTEGER"
    }
}

/// The constraints that are written behind a column: PRIMARY KEY where the column is the primary
/// key, else NOT NULL and UNIQUE where it has them.
pub open spec fn constraint_suffix(col: ColumnDef, context: ColumnConstraintContext) -> Seq<char> {
    let not_null = has_constraint(col, ConstrType::ConstrNotnull);
    let unique = has_constraint(col, ConstrType::ConstrUnique);
    if context is Standalone {
        " PRIMARY KEY"@
    } else if not_null && unique {
        " NOT NULL UNIQUE"@
    } else if not_null {
        " NOT NULL"@
    } else if unique {
        " UNIQUE"@
    } else {
        ""@
    }
}

fn inline_constraint_suffix(col: &ColumnDef, context: ColumnConstraintContext) -> (r: &'static str)
    ensures
        r@ == constraint_suffix(*col, context),
{
    let not_null = column_has_constraint(col, ConstrType::ConstrNotnull);
    let unique = column_has_constraint(col, ConstrType::ConstrUnique);
    if let ColumnConstraintContext::Standalone = context {
        " PRIMARY KEY"
    } else if not_null && unique {
        " NOT NULL UNIQUE"
    } else if not_null {
        " NOT NULL"
    } else if unique {
        " UNIQUE"
    } else {
        ""
    }
}

/// What to write instead of a SERIAL column.
pub open spec fn serial_advice(
    table: Seq<char>,
    col: ColumnDef,
    config: Config,
    primary_key: Seq<Seq<char>>,
) -> Seq<char> {
    let data_type = integer_type(column_type(col));
    let suffix = constraint_suffix(col, constraint_context(col, primary_key));
    match config.postgres_version {
        Some(version) if version < 10 => fill(
            SEQUENCE_ADVICE@,
            seq![table, col.colname@, data_type, suffix, decimal(version as nat)],
        ),
        _ => fill(IDENTITY_ADVICE@, seq![table, col.colname@, data_type, suffix]),
    }
}

fn safe_alternative(
    table: &str,
    col: &ColumnDef,
    serial_type: &str,
    config: &Config,
    primary_key: &Vec<String>,
) -> (r: String)
    requires
        serial_type@ == column_type(*col),
    ensures
        r@ == serial_advice(table@, *col, *config, string_views(primary_key@)),
{
    let data_type = identity_sql_type(serial_type);
    let suffix = inline_constraint_suffix(col, column_constraint_context(col, primary_key));
    if let Some(version) = config.postgres_version {
        if version < 10 {
            let version_text = decimal_text(version as u64);
            let args: Vec<&str> = vec![
                table,
                col.colname.as_str(),
                data_type,
                suffix,
                version_text.as_str(),
            ];
            assert(views(args@) =~= seq![
                table@,
                col.colname@,
                data_type@,
                suffix@,
                version_text@,
            ]);
            return fill_template(SEQUENCE_ADVICE, &args);
        }
    }
    let args: Vec<&str> = vec![table, col.colname.as_str(), data_type, suffix];
    assert(views(args@) =~= seq![table@, col.colname@, data_type@, suffix@]);
    fill_template(IDENTITY_ADVICE, &args)
}

/// What is reported of a SERIAL column.
pub open spec fn serial_report(
    table: Seq<char>,
    col: ColumnDef,
    config: Config,
    primary_key: Seq<Seq<char>>,
) -> ViolationView {
    ViolationView::new(
        "CREATE TABLE with SERIAL"@,
        fill(PROBLEM@, seq![table, col.colname@, column_type(col)]),
        serial_advice(table, col, config, primary_key),
    )
}

fn serial_violation(table: &str, col: &ColumnDef, config: &Config, primary_key: &Vec<String>) -> (r:
    Violation)
    ensures
        r@ == serial_report(table@, *col, *config, string_views(primary_key@)),
{
    let serial_type = column_type_name(col);
    let args: Vec<&str> = vec![table, col.colname.as_str(), serial_type.as_str()];
    assert(views(args@) =~= seq![table@, col.colname@, serial_type@]);
    Violation::new(
        "CREATE TABLE with SERIAL",
        fill_template(PROBLEM, &args).as_str(),
        safe_alternative(table, col, serial_type.as_str(), config, primary_key).as_str(),
    )
}

/// What is reported of an element of a table definition.
pub open spec fn serial_element(stmt: CreateStmt, config: Config) -> spec_fn(NodeEnum) -> Option<
    ViolationView,
> {
    |elt: NodeEnum|
        match elt {
            NodeEnum::ColumnDef(col) if is_serial_name(column_type(col)) => Some(
                serial_report(
                    table_of(stmt.relation),
                    col,
                    config,
                    primary_key_columns(stmt.table_elts@),
                ),
            ),
            _ => None,
        }
}

impl Check for CreateTableSerialCheck {
    open spec fn title(&self) -> Seq<char> {
        "CreateTableSerialCheck"@
    }

    open spec fn violations(
        &self,
        node: NodeEnum,
        config: Config,
        ctx: ContextView,
    ) -> Seq<ViolationView> {
        match node {
            NodeEnum::CreateStmt(stmt) => stmt.table_elts@.filter_map(serial_element(stmt, config)),
            _ => Seq::empty(),
        }
    }

    fn name(&self) -> (r: &str) {
        "CreateTableSerialCheck"
    }

    fn check(&self, node: &NodeEnum, config: &Config, ctx: &MigrationContext) -> (r: Vec<Violation>) {
        let NodeEnum::CreateStmt(stmt) = node else {
            return no_violations();
        };
        let table = table_name(&stmt.relation);
        let primary_key = table_primary_key(stmt);
        let ghost all = stmt.table_elts@;
        let ghost f = serial_element(*stmt, *config);
        let mut r: Vec<Violation> = Vec::new();
        let mut i: usize = 0;
        assert(violation_views(r@) =~= all.take(0).filter_map(f));
        while i < stmt.table_elts.len()
            invariant
                i <= stmt.table_elts.len(),
                all == stmt.table_elts@,
                f == serial_element(*stmt, *config),
                table@ == table_of(stmt.relation),
                string_views(primary_key@) == primary_key_columns(all),
                violation_views(r@) == all.take(i as int).filter_map(f),
            decreases stmt.table_elts.len() - i,
        {
            let ghost before = r@;
            proof {
                all.lemma_filter_map_take_succ(f, i as int);
            }
            if let NodeEnum::ColumnDef(col) = &stmt.table_elts[i] {
                if is_serial_pattern(col) {
                    let v = serial_violation(table.as_str(), col, config, &primary_key);
                    r.push(v);
                    assert(violation_views(r@) =~= violation_views(before).push(v@));
                }
            }
            i += 1;
        }
        assert(all.take(all.len() as int) =~= all);
        r
    }
}

} // verus!
