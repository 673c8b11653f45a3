//! Navigation in the parse tree.

pub use crate::ast::{AlterTableType, ConstrType, DropBehavior, NodeEnum, ObjectType};

use crate::adapters::{ContextView, MigrationContext};
use crate::ast::{AlterTableCmd, AlterTableStmt, ColumnDef, Constraint, RangeVar, RawStmt, TypeName};
use crate::text::{fill, fill_template, join, join_strings, same_text, string_views, views};
use vstd::prelude::*;

verus! {

// ---------------------------------------------------------------------------
// Names
// ---------------------------------------------------------------------------

/// The node of a statement, if it has one.
pub fn extract_node(raw_stmt: &RawStmt) -> (r: Option<&NodeEnum>)
    ensures
        r == (match raw_stmt.stmt {
            Some(n) => Some(&n),
            None => None,
        }),
{
    match &raw_stmt.stmt {
        Some(n) => Some(n),
        None => None,
    }
}

/// The name of a relation, with its schema where one is given.
pub open spec fn relation_name(rv: RangeVar) -> Seq<char> {
    if rv.schemaname@.len() == 0 {
        rv.relname@
    } else {
        rv.schemaname@ + seq!['.'] + rv.relname@
    }
}

/// Extract table name from RangeVar (schema-qualified if present).
pub fn range_var_name(rv: &RangeVar) -> (r: String)
    ensures
        r@ == relation_name(*rv),
{
    if rv.schemaname.as_str().is_empty() {
        rv.relname.clone()
    } else {
        let mut r = rv.schemaname.clone();
        r.push('.');
        r.append(rv.relname.as_str());
        assert(r@ =~= relation_name(*rv));
        r
    }
}

/// The name of an optional relation; `default` if there is none.
pub open spec fn relation_name_or(relation: Option<RangeVar>, default: Seq<char>) -> Seq<char> {
    match relation {
        Some(rv) => relation_name(rv),
        None => default,
    }
}

/// The name of an optional relation, as `relation_name_or` says.
pub fn table_name_or(relation: &Option<RangeVar>, default: &str) -> (r: String)
    ensures
        r@ == relation_name_or(*relation, default@),
{
    match relation {
        Some(rv) => range_var_name(rv),
        None => default.to_string(),
    }
}

/// The name of an optional relation; empty if there is none.
pub open spec fn table_of(relation: Option<RangeVar>) -> Seq<char> {
    relation_name_or(relation, Seq::empty())
}

/// The name of an optional relation, as `table_of` says.
pub fn table_name(relation: &Option<RangeVar>) -> (r: String)
    ensures
        r@ == table_of(*relation),
{
    match relation {
        Some(rv) => range_var_name(rv),
        None => String::new(),
    }
}

/// A name, or a stand-in where it is empty.
pub open spec fn name_or(name: Seq<char>, default: Seq<char>) -> Seq<char> {
    if name.len() == 0 {
        default
    } else {
        name
    }
}

/// A name, as `name_or` says.
pub fn nonempty_or(name: &str, default: &str) -> (r: String)
    ensures
        r@ == name_or(name@, default@),
{
    if name.is_empty() {
        default.to_string()
    } else {
        name.to_string()
    }
}

/// The string that a node holds, if it is a string.
pub open spec fn node_string() -> spec_fn(NodeEnum) -> Option<Seq<char>> {
    |n: NodeEnum|
        match n {
            NodeEnum::String(s) => Some(s@),
            _ => None,
        }
}

/// The strings among some nodes, in their order.
pub open spec fn strings_of(nodes: Seq<NodeEnum>) -> Seq<Seq<char>> {
    nodes.filter_map(node_string())
}

/// The strings among some nodes, as `strings_of` says.
pub fn node_strings(nodes: &Vec<NodeEnum>) -> (r: Vec<String>)
    ensures
        string_views(r@) == strings_of(nodes@),
{
    let mut r: Vec<String> = Vec::new();
    let mut i: usize = 0;
    assert(string_views(r@) =~= strings_of(nodes@.take(0)));
    while i < nodes.len()
        invariant
            i <= nodes.len(),
            string_views(r@) == strings_of(nodes@.take(i as int)),
        decreases nodes.len() - i,
    {
        let ghost before = r@;
        proof {
            nodes@.lemma_filter_map_take_succ(node_string(), i as int);
        }
        if let NodeEnum::String(s) = &nodes[i] {
            r.push(s.clone());
            assert(string_views(r@) =~= string_views(before).push(s@));
        }
        i += 1;
    }
    assert(nodes@.take(nodes@.len() as int) =~= nodes@);
    r
}

/// The strings among some nodes, joined by a separator.
pub fn joined_strings(nodes: &Vec<NodeEnum>, separator: &str) -> (r: String)
    ensures
        r@ == join(strings_of(nodes@), separator@),
{
    let parts = node_strings(nodes);
    assert(string_views(parts@).skip(0) =~= string_views(parts@));
    join_strings(&parts, 0, separator)
}

/// The last segment of a type name; empty if it has none.
pub open spec fn last_type_segment(tn: TypeName) -> Seq<char> {
    let names = strings_of(tn.names@);
    if names.len() == 0 {
        Seq::empty()
    } else {
        names.last()
    }
}

/// Extract the last type name segment from TypeName (e.g., "int4", "bpchar", "json").
pub fn type_name_str(tn: &TypeName) -> (r: String)
    ensures
        r@ == last_type_segment(*tn),
{
    let names = node_strings(&tn.names);
    let ghost all = string_views(names@);
    if names.len() == 0 {
        String::new()
    } else {
        assert(all.last() == names@[names@.len() - 1]@);
        names[names.len() - 1].clone()
    }
}

/// The type name of a column; empty if it has none.
pub open spec fn column_type(col: ColumnDef) -> Seq<char> {
    match col.typename {
        Some(tn) => last_type_segment(tn),
        None => Seq::empty(),
    }
}

/// Shortcut: extract type name string from a ColumnDef.
pub fn column_type_name(col: &ColumnDef) -> (r: String)
    ensures
        r@ == column_type(*col),
{
    match &col.typename {
        Some(tn) => type_name_str(tn),
        None => String::new(),
    }
}

/// Get constraint column names as comma-separated string.
pub fn constraint_columns_str(c: &Constraint) -> (r: String)
    ensures
        r@ == join(strings_of(c.keys@), ", "@),
{
    joined_strings(&c.keys, ", ")
}

// ---------------------------------------------------------------------------
// What a command defines
// ---------------------------------------------------------------------------

/// The column that a command defines, if it defines one.
pub open spec fn column_of(cmd: AlterTableCmd) -> Option<ColumnDef> {
    match cmd.def {
        Some(n) => match *n {
            NodeEnum::ColumnDef(col) => Some(col),
            _ => None,
        },
        None => None,
    }
}

/// Extract ColumnDef from an AlterTableCmd's `def` field.
pub fn cmd_def_as_column_def(cmd: &AlterTableCmd) -> (r: Option<&ColumnDef>)
    ensures
        r matches Some(col) ==> column_of(*cmd) == Some(*col),
        r is None ==> column_of(*cmd) is None,
{
    match &cmd.def {
        Some(n) => match &**n {
            NodeEnum::ColumnDef(col) => Some(col),
            _ => None,
        },
        None => None,
    }
}

/// The column that a command adds, if it is an ADD COLUMN.
pub open spec fn added_column_of(cmd: AlterTableCmd) -> Option<ColumnDef> {
    if cmd.subtype == AlterTableType::AtAddColumn {
        column_of(cmd)
    } else {
        None
    }
}

/// The column that a command adds, as `added_column_of` says. Other commands define a column too:
/// ALTER COLUMN TYPE carries the new type in one.
pub fn added_column_def(cmd: &AlterTableCmd) -> (r: Option<&ColumnDef>)
    ensures
        r matches Some(col) ==> added_column_of(*cmd) == Some(*col),
        r is None ==> added_column_of(*cmd) is None,
{
    if cmd.subtype == AlterTableType::AtAddColumn {
        cmd_def_as_column_def(cmd)
    } else {
        None
    }
}

/// The constraint that a node is, if it is one.
pub open spec fn constraint_of(def: Option<Box<NodeEnum>>) -> Option<Constraint> {
    match def {
        Some(n) => match *n {
            NodeEnum::Constraint(c) => Some(c),
            _ => None,
        },
        None => None,
    }
}

/// The constraint that a node is, as `constraint_of` says.
pub fn def_as_constraint(def: &Option<Box<NodeEnum>>) -> (r: Option<&Constraint>)
    ensures
        r matches Some(c) ==> constraint_of(*def) == Some(*c),
        r is None ==> constraint_of(*def) is None,
{
    match def {
        Some(n) => match &**n {
            NodeEnum::Constraint(c) => Some(c),
            _ => None,
        },
        None => None,
    }
}

/// Extract Constraint from an AlterTableCmd's `def` field.
pub fn cmd_def_as_constraint(cmd: &AlterTableCmd) -> (r: Option<&Constraint>)
    ensures
        r matches Some(c) ==> constraint_of(cmd.def) == Some(*c),
        r is None ==> constraint_of(cmd.def) is None,
{
    def_as_constraint(&cmd.def)
}

// ---------------------------------------------------------------------------
// Type classification predicates
// ---------------------------------------------------------------------------

/// Check if type name is fixed-length CHAR (pg internal: "bpchar").
pub fn is_char_type(typename: &str) -> (r: bool)
    ensures
        r == (typename@ == "bpchar"@),
{
    same_text(typename, "bpchar")
}

/// Check if type name is TIMESTAMP without timezone (not "timestamptz").
pub fn is_timestamp_without_tz(typename: &str) -> (r: bool)
    ensures
        r == (typename@ == "timestamp"@),
{
    same_text(typename, "timestamp")
}

/// Check if type name is a short integer (SMALLINT, INT, SERIAL, SMALLSERIAL).
pub fn is_short_integer(typename: &str) -> (r: bool)
    ensures
        r == (typename@ == "int2"@ || typename@ == "int4"@ || typename@ == "serial"@
            || typename@ == "smallserial"@),
{
    same_text(typename, "int2") || same_text(typename, "int4") || same_text(typename, "serial")
        || same_text(typename, "smallserial")
}

/// Check if type name is JSON (not JSONB).
pub fn is_json_type(typename: &str) -> (r: bool)
    ensures
        r == (typename@ == "json"@),
{
    same_text(typename, "json")
}

/// Whether a node is a constraint of the given kind.
pub open spec fn is_constraint(n: NodeEnum, contype: ConstrType) -> bool {
    n matches NodeEnum::Constraint(c) && c.contype == contype
}

/// Whether a column carries a constraint of the given kind.
pub open spec fn has_constraint(col: ColumnDef, contype: ConstrType) -> bool {
    exists|i: int| 0 <= i < col.constraints@.len() && is_constraint(#[trigger] col.constraints@[i], contype)
}

/// Check if column has a constraint of the given `contype`.
pub fn column_has_constraint(col: &ColumnDef, contype: ConstrType) -> (r: bool)
    ensures
        r == has_constraint(*col, contype),
{
    let mut i: usize = 0;
    while i < col.constraints.len()
        invariant
            i <= col.constraints.len(),
            forall|j: int| 0 <= j < i ==> !is_constraint(#[trigger] col.constraints@[j], contype),
        decreases col.constraints.len() - i,
    {
        if let NodeEnum::Constraint(c) = &col.constraints[i] {
            if c.contype == contype {
                assert(is_constraint(col.constraints@[i as int], contype));
                return true;
            }
        }
        i += 1;
    }
    false
}

/// Whether a type name is one of the SERIAL pseudo-types.
pub open spec fn is_serial_name(typename: Seq<char>) -> bool {
    typename == "serial"@ || typename == "bigserial"@ || typename == "smallserial"@
}

/// Check if column is a SERIAL type (SERIAL, BIGSERIAL, SMALLSERIAL).
pub fn is_serial_pattern(col: &ColumnDef) -> (r: bool)
    ensures
        r == is_serial_name(column_type(*col)),
{
    let name = column_type_name(col);
    same_text(name.as_str(), "serial") || same_text(name.as_str(), "bigserial") || same_text(
        name.as_str(),
        "smallserial",
    )
}

/// Check if column is an identity column (GENERATED ... AS IDENTITY).
pub fn is_identity_pattern(col: &ColumnDef) -> (r: bool)
    ensures
        r == has_constraint(*col, ConstrType::ConstrIdentity),
{
    column_has_constraint(col, ConstrType::ConstrIdentity)
}

// ---------------------------------------------------------------------------
// Higher-level iteration helpers
// ---------------------------------------------------------------------------

/// The command that a node is, if it is one.
pub open spec fn node_cmd() -> spec_fn(NodeEnum) -> Option<AlterTableCmd> {
    |n: NodeEnum|
        match n {
            NodeEnum::AlterTableCmd(cmd) => Some(cmd),
            _ => None,
        }
}

/// The commands of an ALTER TABLE statement, in their order.
pub open spec fn cmds_of(alter: AlterTableStmt) -> Seq<AlterTableCmd> {
    alter.cmds@.filter_map(node_cmd())
}

/// Extract AlterTableCmd entries if node is an AlterTableStmt.
/// Returns `(table_name, cmds)`.
pub fn alter_table_cmds(node: &NodeEnum) -> (r: Option<(String, Vec<&AlterTableCmd>)>)
    ensures
        match *node {
            NodeEnum::AlterTableStmt(alter) => r matches Some(found) && found.0@ == table_of(
                alter.relation,
            ) && found.1@.unref() == cmds_of(alter),
            _ => r is None,
        },
{
    match node {
        NodeEnum::AlterTableStmt(alter) => {
            let table = table_name(&alter.relation);
            let mut cmds: Vec<&AlterTableCmd> = Vec::new();
            let mut i: usize = 0;
            assert(cmds@.unref() =~= alter.cmds@.take(0).filter_map(node_cmd()));
            while i < alter.cmds.len()
                invariant
                    i <= alter.cmds.len(),
                    cmds@.unref() == alter.cmds@.take(i as int).filter_map(node_cmd()),
                decreases alter.cmds.len() - i,
            {
                let ghost before = cmds@;
                proof {
                    alter.cmds@.lemma_filter_map_take_succ(node_cmd(), i as int);
                }
                if let NodeEnum::AlterTableCmd(cmd) = &alter.cmds[i] {
                    cmds.push(cmd);
                    assert(cmds@.unref() =~= before.unref().push(*cmd));
                }
                i += 1;
            }
            assert(alter.cmds@.take(alter.cmds@.len() as int) =~= alter.cmds@);
            Some((table, cmds))
        },
        _ => None,
    }
}

/// The dotted name of a dropped object, if the node is a list.
pub open spec fn object_name() -> spec_fn(NodeEnum) -> Option<Seq<char>> {
    |n: NodeEnum|
        match n {
            NodeEnum::List(items) => Some(join(strings_of(items@), "."@)),
            _ => None,
        }
}

/// The names of the objects that a DROP statement lists.
pub open spec fn object_names(objects: Seq<NodeEnum>) -> Seq<Seq<char>> {
    objects.filter_map(object_name())
}

/// Extract schema-qualified object names from a DropStmt's `objects` field.
///
/// Each object is a list of strings; they are joined with "." to names like "public.my_table".
pub fn drop_object_names(objects: &Vec<NodeEnum>) -> (r: Vec<String>)
    ensures
        string_views(r@) == object_names(objects@),
{
    let mut r: Vec<String> = Vec::new();
    let mut i: usize = 0;
    assert(string_views(r@) =~= object_names(objects@.take(0)));
    while i < objects.len()
        invariant
            i <= objects.len(),
            string_views(r@) == object_names(objects@.take(i as int)),
        decreases objects.len() - i,
    {
        let ghost before = r@;
        proof {
            objects@.lemma_filter_map_take_succ(object_name(), i as int);
        }
        if let NodeEnum::List(items) = &objects[i] {
            let name = joined_strings(items, ".");
            r.push(name);
            assert(string_views(r@) =~= string_views(before).push(name@));
        }
        i += 1;
    }
    assert(objects@.take(objects@.len() as int) =~= objects@);
    r
}

/// The column that a table element is, with the table it belongs to.
pub open spec fn element_column(table: Seq<char>) -> spec_fn(NodeEnum) -> Option<
    (Seq<char>, ColumnDef),
> {
    |n: NodeEnum|
        match n {
            NodeEnum::ColumnDef(col) => Some((table, col)),
            _ => None,
        }
}

/// The column that a command adds, with the table it belongs to.
pub open spec fn command_column(table: Seq<char>) -> spec_fn(NodeEnum) -> Option<
    (Seq<char>, ColumnDef),
> {
    |n: NodeEnum|
        match n {
            NodeEnum::AlterTableCmd(cmd) => match added_column_of(cmd) {
                Some(col) => Some((table, col)),
                None => None,
            },
            _ => None,
        }
}

/// The columns that a CREATE TABLE statement defines or an ALTER TABLE statement adds, each with its
/// table.
pub open spec fn columns_of(node: NodeEnum) -> Seq<(Seq<char>, ColumnDef)> {
    match node {
        NodeEnum::CreateStmt(create) => create.table_elts@.filter_map(
            element_column(table_of(create.relation)),
        ),
        NodeEnum::AlterTableStmt(alter) => alter.cmds@.filter_map(
            command_column(table_of(alter.relation)),
        ),
        _ => Seq::empty(),
    }
}

/// The model of a list of columns with their tables.
pub open spec fn column_views(columns: Seq<(String, &ColumnDef)>) -> Seq<(Seq<char>, ColumnDef)> {
    columns.map_values(|c: (String, &ColumnDef)| (c.0@, *c.1))
}

/// Iterate ColumnDef from both CreateStmt.table_elts AND AlterTableStmt ADD COLUMN.
/// Returns `(table_name, column_def)` pairs for dual-context checks.
pub fn for_each_column_def(node: &NodeEnum) -> (r: Vec<(String, &ColumnDef)>)
    ensures
        column_views(r@) == columns_of(*node),
{
    let mut r: Vec<(String, &ColumnDef)> = Vec::new();
    match node {
        NodeEnum::CreateStmt(create) => {
            let table = table_name(&create.relation);
            let ghost f = element_column(table@);
            let mut i: usize = 0;
            assert(column_views(r@) =~= create.table_elts@.take(0).filter_map(f));
            while i < create.table_elts.len()
                invariant
                    i <= create.table_elts.len(),
                    f == element_column(table@),
                    column_views(r@) == create.table_elts@.take(i as int).filter_map(f),
                decreases create.table_elts.len() - i,
            {
                let ghost before = r@;
                proof {
                    create.table_elts@.lemma_filter_map_take_succ(f, i as int);
                }
                if let NodeEnum::ColumnDef(col) = &create.table_elts[i] {
                    r.push((table.clone(), col));
                    assert(column_views(r@) =~= column_views(before).push((table@, *col)));
                }
                i += 1;
            }
            assert(create.table_elts@.take(create.table_elts@.len() as int) =~= create.table_elts@);
        },
        NodeEnum::AlterTableStmt(alter) => {
            let table = table_name(&alter.relation);
            let ghost f = command_column(table@);
            let mut i: usize = 0;
            assert(column_views(r@) =~= alter.cmds@.take(0).filter_map(f));
            while i < alter.cmds.len()
                invariant
                    i <= alter.cmds.len(),
                    f == command_column(table@),
                    column_views(r@) == alter.cmds@.take(i as int).filter_map(f),
                decreases alter.cmds.len() - i,
            {
                let ghost before = r@;
                proof {
                    alter.cmds@.lemma_filter_map_take_succ(f, i as int);
                }
                if let NodeEnum::AlterTableCmd(cmd) = &alter.cmds[i] {
                    if let Some(col) = added_column_def(cmd) {
                        r.push((table.clone(), col));
                        assert(column_views(r@) =~= column_views(before).push((table@, *col)));
                    }
                }
                i += 1;
            }
            assert(alter.cmds@.take(alter.cmds@.len() as int) =~= alter.cmds@);
        },
        _ => {
            assert(column_views(r@) =~= columns_of(*node));
        },
    }
    r
}

/// Get the display name for a constraint — falls back to `"<unnamed>"` if no name is set.
pub fn constraint_display_name(c: &Constraint) -> (r: String)
    ensures
        r@ == name_or(c.conname@, "<unnamed>"@),
{
    nonempty_or(c.conname.as_str(), "<unnamed>")
}

/// Get foreign key columns as a comma-separated string
pub fn fk_cols_constraint(c: &Constraint) -> (r: String)
    ensures
        r@ == join(strings_of(c.fk_attrs@), ", "@),
{
    joined_strings(&c.fk_attrs, ", ")
}

/// Get table referenced in foreign key
pub fn ref_table_constraint(c: &Constraint) -> (r: String)
    ensures
        r@ == table_of(c.pktable),
{
    table_name(&c.pktable)
}

/// Get columns referenced in foreign key
pub fn ref_columns_constraint(c: &Constraint) -> (r: String)
    ensures
        r@ == join(strings_of(c.pk_attrs@), ", "@),
{
    joined_strings(&c.pk_attrs, ", ")
}

// ---------------------------------------------------------------------------
// Advice on CONCURRENTLY
// ---------------------------------------------------------------------------

/// What is added to a suggestion when the migration runs inside a transaction.
pub const TRANSACTION_NOTE: &'static str =
    "{0}\n\nNote: CONCURRENTLY cannot run inside a transaction block.\n{1}";

/// A suggestion to use CONCURRENTLY, with a note when the migration runs inside a transaction.
pub open spec fn concurrent_advice(suggestion: Seq<char>, ctx: ContextView) -> Seq<char> {
    if ctx.run_in_transaction {
        fill(TRANSACTION_NOTE@, seq![suggestion, ctx.no_transaction_hint])
    } else {
        suggestion
    }
}

/// Appends a transaction-cannot-run note when the migration runs inside a transaction block.
/// Pass the already-built suggestion string; returns it unchanged when outside a transaction.
pub fn concurrent_safe_alternative(suggestion: String, ctx: &MigrationContext) -> (r: String)
    ensures
        r@ == concurrent_advice(suggestion@, ctx@),
{
    if ctx.run_in_transaction {
        let args: Vec<&str> = vec![suggestion.as_str(), ctx.no_transaction_hint];
        assert(views(args@) =~= seq![suggestion@, ctx.no_transaction_hint@]);
        fill_template(TRANSACTION_NOTE, &args)
    } else {
        suggestion
    }
}

} // verus!
