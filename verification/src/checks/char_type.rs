//! Columns of type CHAR: padded with spaces, which wastes storage and breaks comparisons.

use super::pg_helpers::{
    column_type, column_type_name, column_views, columns_of, for_each_column_def, is_char_type, NodeEnum,
};
use super::Check;
use crate::adapters::{ContextView, MigrationContext};
use crate::config::Config;
use crate::ast::{AConst, ColumnDef};
use crate::text::{signed_decimal, signed_decimal_text, views};
use crate::violation::{
    finding, no_violations, violation_views, Violation, ViolationView,
};
use vstd::prelude::*;

verus! {

/// What the violation says of the problem.
pub const PROBLEM: &'static str =
    "Column '{1}' uses CHAR({2}) which is fixed-length and padded with spaces. \
            This wastes storage and can cause subtle bugs with string comparisons. \
            This is a best practice warning (no locking impact).";

/// What to do instead in an ALTER TABLE.
pub const ALTER_SAFE_ALTERNATIVE: &'static str =
    r"Use TEXT or VARCHAR instead of CHAR:

1. For variable-length strings (most cases):
   ALTER TABLE {0} ADD COLUMN {1} TEXT;

2. If you need a length constraint:
   ALTER TABLE {0} ADD COLUMN {1} VARCHAR({2});
   -- Or use TEXT with a CHECK constraint:
   ALTER TABLE {0} ADD COLUMN {1} TEXT CHECK (length({1}) <= {2});

CHAR is only appropriate for truly fixed-length codes (e.g., ISO country codes).
If this is intentional, use a safety-assured block:
   -- safety-assured:start
   ALTER TABLE {0} ADD COLUMN {1} CHAR({2});
   -- safety-assured:end";

/// What to do instead in a CREATE TABLE.
pub const CREATE_SAFE_ALTERNATIVE: &'static str =
    r"Use TEXT or VARCHAR instead of CHAR:

1. For variable-length strings (most cases):
   CREATE TABLE {0} (
       {1} TEXT
   );

2. If you need a length constraint:
   CREATE TABLE {0} (
       {1} VARCHAR({2})
   );
   -- Or use TEXT with a CHECK constraint:
   CREATE TABLE {0} (
       {1} TEXT CHECK (length({1}) <= {2})
   );

CHAR is only appropriate for truly fixed-length codes (e.g., ISO country codes).
If this is intentional, use a safety-assured block:
   -- safety-assured:start
   CREATE TABLE {0} (
       {1} CHAR({2})
   );
   -- safety-assured:end";

pub struct CharTypeCheck;

/// The length of a CHAR column: its first type modifier if that is a number, else 1.
pub open spec fn char_length(col: ColumnDef) -> Seq<char> {
    match col.typename {
        Some(tn) => if tn.typmods@.len() > 0 {
            match tn.typmods@[0] {
                NodeEnum::AConst(AConst::Integer(n)) => signed_decimal(n as int),
                _ => "1"@,
            }
        } else {
            "1"@
        },
        None => "1"@,
    }
}

fn get_char_length(col: &ColumnDef) -> (r: String)
    ensures
        r@ == char_length(*col),
{
    if let Some(tn) = &col.typename {
        if tn.typmods.len() > 0 {
            if let NodeEnum::AConst(AConst::Integer(n)) = &tn.typmods[0] {
                return signed_decimal_text(*n);
            }
        }
    }
    "1".to_string()
}

/// What is reported of a CHAR column of a CREATE TABLE or of an ALTER TABLE.
pub open spec fn char_violation(
    in_create: bool,
    table: Seq<char>,
    column: Seq<char>,
    length: Seq<char>,
) -> ViolationView {
    if in_create {
        finding(
            "CREATE TABLE with CHAR type"@,
            PROBLEM@,
            CREATE_SAFE_ALTERNATIVE@,
            seq![table, column, length],
        )
    } else {
        finding(
            "ADD COLUMN with CHAR type"@,
            PROBLEM@,
            ALTER_SAFE_ALTERNATIVE@,
            seq![table, column, length],
        )
    }
}

/// What is reported of a column.
pub open spec fn char_column(in_create: bool) -> spec_fn((Seq<char>, ColumnDef)) -> Option<
    ViolationView,
> {
    |c: (Seq<char>, ColumnDef)|
        if column_type(c.1) == "bpchar"@ {
            Some(char_violation(in_create, c.0, c.1.colname@, char_length(c.1)))
        } else {
            None
        }
}

/// Create a violation for ALTER TABLE ADD COLUMN with CHAR type
pub fn create_alter_table_violation(table_name: &str, column_name: &str, length: &str) -> (r:
    Violation)
    ensures
        r@ == char_violation(false, table_name@, column_name@, length@),
{
    let args: Vec<&str> = vec![table_name, column_name, length];
    assert(views(args@) =~= seq![table_name@, column_name@, length@]);
    Violation::from_templates("ADD COLUMN with CHAR type", PROBLEM, ALTER_SAFE_ALTERNATIVE, &args)
}

/// Create a violation for CREATE TABLE with CHAR type column
pub fn create_create_table_violation(table_name: &str, column_name: &str, length: &str) -> (r:
    Violation)
    ensures
        r@ == char_violation(true, table_name@, column_name@, length@),
{
    let args: Vec<&str> = vec![table_name, column_name, length];
    assert(views(args@) =~= seq![table_name@, column_name@, length@]);
    Violation::from_templates("CREATE TABLE with CHAR type", PROBLEM, CREATE_SAFE_ALTERNATIVE, &args)
}

fn check_columns(node: &NodeEnum, in_create: bool) -> (r: Vec<Violation>)
    ensures
        violation_views(r@) == columns_of(*node).filter_map(char_column(in_create)),
{
    let columns = for_each_column_def(node);
    let ghost all = column_views(columns@);
    let ghost f = char_column(in_create);
    let mut r: Vec<Violation> = Vec::new();
    let mut i: usize = 0;
    assert(violation_views(r@) =~= all.take(0).filter_map(f));
    while i < columns.len()
        invariant
            i <= columns.len(),
            all == column_views(columns@),
            f == char_column(in_create),
            violation_views(r@) == all.take(i as int).filter_map(f),
        decreases columns.len() - i,
    {
        let ghost before = r@;
        proof {
            all.lemma_filter_map_take_succ(f, i as int);
        }
        let table = columns[i].0.as_str();
        let col = columns[i].1;
        assert(all[i as int] == (table@, *col));
        if is_char_type(column_type_name(col).as_str()) {
            let length = get_char_length(col);
            let v = if in_create {
                create_create_table_violation(table, col.colname.as_str(), length.as_str())
            } else {
                create_alter_table_violation(table, col.colname.as_str(), length.as_str())
            };
            r.push(v);
            assert(violation_views(r@) =~= violation_views(before).push(v@));
        }
        i += 1;
    }
    assert(all.take(all.len() as int) =~= all);
    r
}

impl Check for CharTypeCheck {
    open spec fn title(&self) -> Seq<char> {
        "CharTypeCheck"@
    }

    open spec fn violations(
        &self,
        node: NodeEnum,
        config: Config,
        ctx: ContextView,
    ) -> Seq<ViolationView> {
        match node {
            NodeEnum::CreateStmt(_) => columns_of(node).filter_map(char_column(true)),
            NodeEnum::AlterTableStmt(_) => columns_of(node).filter_map(char_column(false)),
            _ => Seq::empty(),
        }
    }

    fn name(&self) -> (r: &str) {
        "CharTypeCheck"
    }

    fn check(&self, node: &NodeEnum, config: &Config, ctx: &MigrationContext) -> (r: Vec<Violation>) {
        match node {
            NodeEnum::CreateStmt(_) => check_columns(node, true),
            NodeEnum::AlterTableStmt(_) => check_columns(node, false),
            _ => no_violations(),
        }
    }
}

} // verus!
