//! The parts of a parsed SQL statement that the checks read.
//!
//! The types follow the shape of the Postgres parse tree. A node of a kind that no check reads is
//! `NodeEnum::Other`.

use vstd::prelude::*;

verus! {

/// A node of the parse tree.
#[derive(Debug)]
pub enum NodeEnum {
    /// An identifier or another bare string.
    String(String),
    /// A literal.
    AConst(AConst),
    /// A cast of the inner expression.
    TypeCast(Box<NodeEnum>),
    /// A list of nodes.
    List(Vec<NodeEnum>),
    RangeVar(RangeVar),
    ColumnDef(ColumnDef),
    Constraint(Constraint),
    /// `LIKE other_table` in a table definition.
    TableLikeClause,
    IndexElem(IndexElem),
    DefElem(DefElem),
    AlterTableCmd(AlterTableCmd),
    AlterTableStmt(AlterTableStmt),
    AlterDomainStmt(AlterDomainStmt),
    CreateStmt(CreateStmt),
    IndexStmt(IndexStmt),
    DropStmt(DropStmt),
    DropdbStmt(DropdbStmt),
    DeleteStmt(DeleteStmt),
    UpdateStmt(UpdateStmt),
    RefreshMatViewStmt(RefreshMatViewStmt),
    ReindexStmt(ReindexStmt),
    RenameStmt(RenameStmt),
    TruncateStmt(TruncateStmt),
    /// Any other node.
    Other,
}

/// A statement and the byte offset at which the parser says it starts.
#[derive(Debug)]
pub struct RawStmt {
    pub stmt: Option<NodeEnum>,
    pub stmt_location: i32,
}

/// A literal.
#[derive(Debug)]
pub enum AConst {
    Integer(i32),
    Boolean(bool),
    /// A string, a float, a bit string or NULL.
    Other,
}

/// The name of a relation.
#[derive(Debug, Default)]
pub struct RangeVar {
    pub schemaname: String,
    pub relname: String,
    /// `p` for permanent, `u` for unlogged, `t` for temporary.
    pub relpersistence: String,
}

/// A data type: its name, segment by segment, and its modifiers.
#[derive(Debug, Default)]
pub struct TypeName {
    pub names: Vec<NodeEnum>,
    pub typmods: Vec<NodeEnum>,
}

#[derive(Debug, Default)]
pub struct ColumnDef {
    pub colname: String,
    pub typename: Option<TypeName>,
    pub constraints: Vec<NodeEnum>,
}

/// The kind of a constraint.
#[derive(Debug, Clone, Copy, PartialEq, Eq, Structural, Default)]
pub enum ConstrType {
    ConstrNotnull,
    ConstrDefault,
    ConstrIdentity,
    ConstrGenerated,
    ConstrCheck,
    ConstrPrimary,
    ConstrUnique,
    ConstrExclusion,
    ConstrForeign,
    #[default]
    Other,
}

#[derive(Debug, Default)]
pub struct Constraint {
    pub contype: ConstrType,
    /// The name; empty if the statement gives none.
    pub conname: String,
    /// False where the statement says NOT VALID.
    pub initially_valid: bool,
    /// The index named in USING INDEX; empty if there is none.
    pub indexname: String,
    pub keys: Vec<NodeEnum>,
    pub fk_attrs: Vec<NodeEnum>,
    pub pktable: Option<RangeVar>,
    pub pk_attrs: Vec<NodeEnum>,
    /// The expression of a DEFAULT or CHECK.
    pub raw_expr: Option<Box<NodeEnum>>,
}

#[derive(Debug, Default)]
pub struct IndexElem {
    /// The column; empty if the element is an expression.
    pub name: String,
}

#[derive(Debug, Default)]
pub struct DefElem {
    pub defname: String,
}

/// The kind of an ALTER TABLE command.
#[derive(Debug, Clone, Copy, PartialEq, Eq, Structural, Default)]
pub enum AlterTableType {
    AtAddColumn,
    AtDropColumn,
    AtSetNotNull,
    AtAlterColumnType,
    AtAddConstraint,
    AtDropConstraint,
    #[default]
    Other,
}

#[derive(Debug, Default)]
pub struct AlterTableCmd {
    pub subtype: AlterTableType,
    pub name: String,
    pub def: Option<Box<NodeEnum>>,
    /// IF EXISTS or IF NOT EXISTS.
    pub missing_ok: bool,
}

#[derive(Debug, Default)]
pub struct AlterTableStmt {
    pub relation: Option<RangeVar>,
    pub cmds: Vec<NodeEnum>,
}

#[derive(Debug, Default)]
pub struct AlterDomainStmt {
    /// `C` for ADD CONSTRAINT.
    pub subtype: String,
    pub typename: Vec<NodeEnum>,
    pub def: Option<Box<NodeEnum>>,
}

#[derive(Debug, Default)]
pub struct CreateStmt {
    pub relation: Option<RangeVar>,
    pub table_elts: Vec<NodeEnum>,
    pub if_not_exists: bool,
}

#[derive(Debug, Default)]
pub struct IndexStmt {
    pub idxname: String,
    pub relation: Option<RangeVar>,
    pub index_params: Vec<NodeEnum>,
    pub unique: bool,
    pub concurrent: bool,
    pub if_not_exists: bool,
}

/// The kind of object that a statement drops or renames.
#[derive(Debug, Clone, Copy, PartialEq, Eq, Structural, Default)]
pub enum ObjectType {
    ObjectTable,
    ObjectIndex,
    ObjectColumn,
    #[default]
    Other,
}

/// CASCADE or RESTRICT.
#[derive(Debug, Clone, Copy, PartialEq, Eq, Structural, Default)]
pub enum DropBehavior {
    DropRestrict,
    DropCascade,
    #[default]
    Undefined,
}

#[derive(Debug, Default)]
pub struct DropStmt {
    pub objects: Vec<NodeEnum>,
    pub remove_type: ObjectType,
    pub behavior: DropBehavior,
    pub missing_ok: bool,
    pub concurrent: bool,
}

#[derive(Debug, Default)]
pub struct DropdbStmt {
    pub dbname: String,
    pub missing_ok: bool,
}

#[derive(Debug, Default)]
pub struct DeleteStmt {
    pub relation: Option<RangeVar>,
    pub where_clause: Option<Box<NodeEnum>>,
}

#[derive(Debug, Default)]
pub struct UpdateStmt {
    pub relation: Option<RangeVar>,
    pub where_clause: Option<Box<NodeEnum>>,
}

#[derive(Debug, Default)]
pub struct RefreshMatViewStmt {
    pub concurrent: bool,
    pub relation: Option<RangeVar>,
}

#[derive(Debug, Default)]
pub struct ReindexStmt {
    /// 1 for INDEX, 2 for TABLE, 3 for SCHEMA, 4 for SYSTEM, 5 for DATABASE.
    pub kind: i32,
    pub relation: Option<RangeVar>,
    pub name: String,
    pub params: Vec<NodeEnum>,
}

#[derive(Debug, Default)]
pub struct RenameStmt {
    pub rename_type: ObjectType,
    pub relation: Option<RangeVar>,
    pub subname: String,
    pub newname: String,
}

#[derive(Debug, Default)]
pub struct TruncateStmt {
    pub relations: Vec<NodeEnum>,
}

} // verus!
