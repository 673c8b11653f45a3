//! The checks, one by one and together, on SQL text.

use diesel_guard::adapters::diesel::MigrationListing;
use diesel_guard::adapters::MigrationContext;
use diesel_guard::ast::{
    AConst, AlterDomainStmt, AlterTableCmd, AlterTableStmt, AlterTableType, ColumnDef, ConstrType,
    Constraint, CreateStmt, DefElem, DeleteStmt, DropBehavior, DropStmt, DropdbStmt, IndexElem,
    IndexStmt, NodeEnum, ObjectType, RangeVar, RawStmt, RefreshMatViewStmt, ReindexStmt,
    RenameStmt, TruncateStmt, TypeName, UpdateStmt,
};
use diesel_guard::checks::add_column::AddColumnCheck;
use diesel_guard::checks::add_domain_check_constraint::AddDomainCheckConstraintCheck;
use diesel_guard::checks::add_exclude_constraint::AddExcludeConstraintCheck;
use diesel_guard::checks::add_foreign_key::AddForeignKeyCheck;
use diesel_guard::checks::add_index::AddIndexCheck;
use diesel_guard::checks::add_json_column::AddJsonColumnCheck;
use diesel_guard::checks::add_not_null::AddNotNullCheck;
use diesel_guard::checks::add_primary_key::AddPrimaryKeyCheck;
use diesel_guard::checks::add_serial_column::AddSerialColumnCheck;
use diesel_guard::checks::char_type::CharTypeCheck;
use diesel_guard::checks::create_table_serial::CreateTableSerialCheck;
use diesel_guard::checks::create_table_without_pk::CreateTableWithoutPkCheck;
use diesel_guard::checks::drop_column::DropColumnCheck;
use diesel_guard::checks::drop_database::DropDatabaseCheck;
use diesel_guard::checks::drop_index::DropIndexCheck;
use diesel_guard::checks::drop_primary_key::DropPrimaryKeyCheck;
use diesel_guard::checks::drop_table::DropTableCheck;
use diesel_guard::checks::generated_column::GeneratedColumnCheck;
use diesel_guard::checks::idempotency_alter::IdempotencyAlterCheck;
use diesel_guard::checks::idempotency_create::IdempotencyCreateCheck;
use diesel_guard::checks::idempotency_drop::IdempotencyDropCheck;
use diesel_guard::checks::idempotency_index::IdempotencyIndexCheck;
use diesel_guard::checks::mutation_without_where::MutationWithoutWhereCheck;
use diesel_guard::checks::pg_helpers::{
    for_each_column_def, is_identity_pattern, is_short_integer, is_timestamp_without_tz,
};
use diesel_guard::checks::refresh_matview::RefreshMatViewCheck;
use diesel_guard::checks::reindex::ReindexCheck;
use diesel_guard::checks::rename_column::RenameColumnCheck;
use diesel_guard::checks::truncate_table::TruncateTableCheck;
use diesel_guard::checks::unnamed_constraint::UnnamedConstraintCheck;
use diesel_guard::checks::wide_index::WideIndexCheck;
use diesel_guard::checks::registry::{
    byte_offset_to_line, first_token_at_or_after, RegisteredCheck, Registry,
};
use diesel_guard::checks::Check;
use diesel_guard::config::{Config, ConfigError};
use diesel_guard::error::{DieselGuardError, SourceSpan};
use diesel_guard::parser::comment_parser::IgnoreRange;
use diesel_guard::parser::Statements;
use diesel_guard::safety_checker::{
    single_result, CustomChecks, Framework, MigrationInput, SafetyChecker, ScriptError,
};
use diesel_guard::violation::{Severity, Violation};
use diesel_guard::ViolationList;
use std::collections::HashSet;

// ---------------------------------------------------------------------------
// A parser for the statements below, in place of the Postgres parser.
// ---------------------------------------------------------------------------

#[derive(Debug, Clone, PartialEq)]
enum Tok {
    Word(String),
    Number(String),
    Text,
    Symbol(char),
}

fn tokens(sql: &str) -> Vec<(usize, Tok)> {
    let bytes = sql.as_bytes();
    let mut found = Vec::new();
    let mut i = 0;
    while i < bytes.len() {
        let rest = &sql[i..];
        let c = rest.chars().next().unwrap();
        if c.is_whitespace() {
            i += c.len_utf8();
        } else if rest.starts_with("--") {
            i += rest.find('\n').unwrap_or(rest.len());
        } else if rest.starts_with("/*") {
            let mut depth = 0;
            let mut k = i;
            loop {
                if sql[k..].starts_with("/*") {
                    depth += 1;
                    k += 2;
                } else if sql[k..].starts_with("*/") {
                    depth -= 1;
                    k += 2;
                    if depth == 0 {
                        break;
                    }
                } else {
                    k += 1;
                }
            }
            i = k;
        } else if c == '\'' {
            let end = rest[1..].find('\'').unwrap() + 2;
            found.push((i, Tok::Text));
            i += end;
        } else if c.is_alphanumeric() || c == '_' {
            let end = rest.find(|c: char| !c.is_alphanumeric() && c != '_').unwrap_or(rest.len());
            let text = rest[..end].to_string();
            if c.is_ascii_digit() {
                found.push((i, Tok::Number(text)));
            } else {
                found.push((i, Tok::Word(text)));
            }
            i += end;
        } else {
            found.push((i, Tok::Symbol(c)));
            i += c.len_utf8();
        }
    }
    found
}

struct Parser {
    toks: Vec<Tok>,
    at: usize,
}

impl Parser {
    fn peek_word(&self, offset: usize, word: &str) -> bool {
        matches!(self.toks.get(self.at + offset), Some(Tok::Word(w)) if w.eq_ignore_ascii_case(word))
    }

    fn word(&mut self, word: &str) -> bool {
        let found = self.peek_word(0, word);
        if found {
            self.at += 1;
        }
        found
    }

    fn words(&mut self, words: &[&str]) -> bool {
        let found = (0..words.len()).all(|k| self.peek_word(k, words[k]));
        if found {
            self.at += words.len();
        }
        found
    }

    fn symbol(&mut self, symbol: char) -> bool {
        let found = self.toks.get(self.at) == Some(&Tok::Symbol(symbol));
        if found {
            self.at += 1;
        }
        found
    }

    fn done(&self) -> bool {
        self.at >= self.toks.len()
    }

    fn ident(&mut self) -> Option<String> {
        match self.toks.get(self.at) {
            Some(Tok::Word(w)) => {
                self.at += 1;
                Some(w.to_lowercase())
            }
            _ => None,
        }
    }

    fn relation(&mut self) -> Option<RangeVar> {
        let first = self.ident()?;
        let (schemaname, relname) = if self.symbol('.') {
            (first, self.ident()?)
        } else {
            (String::new(), first)
        };
        Some(RangeVar { schemaname, relname, relpersistence: "p".to_string() })
    }

    /// The rest of a parenthesised list, without looking inside.
    fn skip_parens(&mut self) -> Option<()> {
        let mut depth = 1;
        while depth > 0 {
            match self.toks.get(self.at)? {
                Tok::Symbol('(') => depth += 1,
                Tok::Symbol(')') => depth -= 1,
                _ => {}
            }
            self.at += 1;
        }
        Some(())
    }

    fn parens(&mut self) -> Option<()> {
        if !self.symbol('(') {
            return None;
        }
        self.skip_parens()
    }

    fn columns(&mut self) -> Option<Vec<NodeEnum>> {
        let mut names = Vec::new();
        if !self.symbol('(') {
            return None;
        }
        loop {
            names.push(NodeEnum::String(self.ident()?));
            if !self.symbol(',') {
                break;
            }
        }
        if self.symbol(')') {
            Some(names)
        } else {
            None
        }
    }

    fn data_type(&mut self) -> Option<TypeName> {
        let name = self.ident()?;
        let system = |name: &str| {
            vec![NodeEnum::String("pg_catalog".to_string()), NodeEnum::String(name.to_string())]
        };
        let mut fixed = false;
        let names = match name.as_str() {
            "int" | "integer" => system("int4"),
            "bigint" => system("int8"),
            "smallint" => system("int2"),
            "boolean" => system("bool"),
            "varchar" => system("varchar"),
            "timestamp" => system("timestamp"),
            "json" => system("json"),
            "char" | "character" => {
                fixed = true;
                system("bpchar")
            }
            other => vec![NodeEnum::String(other.to_string())],
        };
        let mut typmods = Vec::new();
        if self.symbol('(') {
            match self.toks.get(self.at)? {
                Tok::Number(n) => typmods.push(NodeEnum::AConst(AConst::Integer(n.parse().ok()?))),
                _ => return None,
            }
            self.skip_parens()?;
        } else if fixed {
            typmods.push(NodeEnum::AConst(AConst::Integer(1)));
        }
        Some(TypeName { names, typmods })
    }

    fn expression(&mut self) -> Option<NodeEnum> {
        let tok = self.toks.get(self.at)?.clone();
        self.at += 1;
        let node = match tok {
            Tok::Number(n) => NodeEnum::AConst(AConst::Integer(n.parse().ok()?)),
            Tok::Text => NodeEnum::AConst(AConst::Other),
            Tok::Word(w) if w.eq_ignore_ascii_case("true") => {
                NodeEnum::AConst(AConst::Boolean(true))
            }
            Tok::Word(w) if w.eq_ignore_ascii_case("false") => {
                NodeEnum::AConst(AConst::Boolean(false))
            }
            Tok::Word(w) if w.eq_ignore_ascii_case("null") => NodeEnum::AConst(AConst::Other),
            Tok::Word(_) => {
                if self.symbol('(') {
                    self.skip_parens()?;
                }
                NodeEnum::Other
            }
            Tok::Symbol('(') => {
                self.skip_parens()?;
                NodeEnum::Other
            }
            Tok::Symbol(_) => return None,
        };
        if self.symbol(':') {
            if !self.symbol(':') {
                return None;
            }
            self.data_type()?;
            return Some(NodeEnum::TypeCast(Box::new(node)));
        }
        Some(node)
    }

    fn column_constraint(&mut self) -> Option<Option<NodeEnum>> {
        let conname = if self.word("CONSTRAINT") { self.ident()? } else { String::new() };
        let mut c = Constraint { conname, ..Constraint::default() };
        if self.words(&["NOT", "NULL"]) {
            c.contype = ConstrType::ConstrNotnull;
        } else if self.word("NULL") {
            c.contype = ConstrType::Other;
        } else if self.words(&["PRIMARY", "KEY"]) {
            c.contype = ConstrType::ConstrPrimary;
        } else if self.word("UNIQUE") {
            c.contype = ConstrType::ConstrUnique;
        } else if self.word("DEFAULT") {
            c.contype = ConstrType::ConstrDefault;
            c.raw_expr = Some(Box::new(self.expression()?));
        } else if self.word("CHECK") {
            c.contype = ConstrType::ConstrCheck;
            c.initially_valid = true;
            self.parens()?;
            c.raw_expr = Some(Box::new(NodeEnum::Other));
        } else if self.word("REFERENCES") {
            c.contype = ConstrType::ConstrForeign;
            c.initially_valid = true;
            c.pktable = Some(self.relation()?);
            if self.toks.get(self.at) == Some(&Tok::Symbol('(')) {
                c.pk_attrs = self.columns()?;
            }
        } else if self.word("GENERATED") {
            if !self.word("ALWAYS") && !self.words(&["BY", "DEFAULT"]) {
                return None;
            }
            if !self.word("AS") {
                return None;
            }
            if self.word("IDENTITY") {
                c.contype = ConstrType::ConstrIdentity;
            } else {
                c.contype = ConstrType::ConstrGenerated;
                self.parens()?;
                c.raw_expr = Some(Box::new(NodeEnum::Other));
                if !self.word("STORED") {
                    return None;
                }
            }
        } else {
            return Some(None);
        }
        Some(Some(NodeEnum::Constraint(c)))
    }

    fn column(&mut self) -> Option<NodeEnum> {
        let colname = self.ident()?;
        let typename = Some(self.data_type()?);
        let mut constraints = Vec::new();
        while let Some(constraint) = self.column_constraint()? {
            constraints.push(constraint);
        }
        Some(NodeEnum::ColumnDef(ColumnDef { colname, typename, constraints }))
    }

    fn starts_constraint(&self) -> bool {
        ["CONSTRAINT", "UNIQUE", "CHECK", "EXCLUDE"].iter().any(|w| self.peek_word(0, w))
            || (self.peek_word(0, "PRIMARY") && self.peek_word(1, "KEY"))
            || (self.peek_word(0, "FOREIGN") && self.peek_word(1, "KEY"))
    }

    fn constraint(&mut self) -> Option<NodeEnum> {
        let conname = if self.word("CONSTRAINT") { self.ident()? } else { String::new() };
        let mut c = Constraint { conname, ..Constraint::default() };
        if self.words(&["PRIMARY", "KEY"]) || self.peek_word(0, "UNIQUE") {
            c.contype = if self.word("UNIQUE") {
                ConstrType::ConstrUnique
            } else {
                ConstrType::ConstrPrimary
            };
            if self.words(&["USING", "INDEX"]) {
                c.indexname = self.ident()?;
            } else {
                c.keys = self.columns()?;
            }
        } else if self.words(&["FOREIGN", "KEY"]) {
            c.contype = ConstrType::ConstrForeign;
            c.fk_attrs = self.columns()?;
            if !self.word("REFERENCES") {
                return None;
            }
            c.pktable = Some(self.relation()?);
            if self.toks.get(self.at) == Some(&Tok::Symbol('(')) {
                c.pk_attrs = self.columns()?;
            }
            c.initially_valid = !self.words(&["NOT", "VALID"]);
        } else if self.word("CHECK") {
            c.contype = ConstrType::ConstrCheck;
            self.parens()?;
            c.raw_expr = Some(Box::new(NodeEnum::Other));
            c.initially_valid = !self.words(&["NOT", "VALID"]);
        } else if self.word("EXCLUDE") {
            c.contype = ConstrType::ConstrExclusion;
            if self.word("USING") {
                self.ident()?;
            }
            self.parens()?;
        } else if self.words(&["NOT", "NULL"]) {
            c.contype = ConstrType::ConstrNotnull;
        } else {
            return None;
        }
        Some(NodeEnum::Constraint(c))
    }

    fn alter_command(&mut self) -> Option<NodeEnum> {
        let mut cmd = AlterTableCmd::default();
        if self.word("ADD") {
            if self.starts_constraint() {
                cmd.subtype = AlterTableType::AtAddConstraint;
                cmd.def = Some(Box::new(self.constraint()?));
            } else {
                self.word("COLUMN");
                cmd.subtype = AlterTableType::AtAddColumn;
                cmd.missing_ok = self.words(&["IF", "NOT", "EXISTS"]);
                cmd.def = Some(Box::new(self.column()?));
            }
        } else if self.word("DROP") {
            cmd.subtype = if self.word("CONSTRAINT") {
                AlterTableType::AtDropConstraint
            } else {
                self.word("COLUMN");
                AlterTableType::AtDropColumn
            };
            cmd.missing_ok = self.words(&["IF", "EXISTS"]);
            cmd.name = self.ident()?;
        } else if self.word("ALTER") {
            self.word("COLUMN");
            cmd.name = self.ident()?;
            if self.words(&["SET", "NOT", "NULL"]) {
                cmd.subtype = AlterTableType::AtSetNotNull;
            } else if self.words(&["DROP", "NOT", "NULL"]) {
                cmd.subtype = AlterTableType::Other;
            } else if self.words(&["SET", "DEFAULT"]) {
                self.expression()?;
            } else if self.word("TYPE") {
                cmd.subtype = AlterTableType::AtAlterColumnType;
                cmd.def = Some(Box::new(NodeEnum::ColumnDef(ColumnDef {
                    typename: Some(self.data_type()?),
                    ..ColumnDef::default()
                })));
            } else {
                return None;
            }
        } else {
            return None;
        }
        Some(NodeEnum::AlterTableCmd(cmd))
    }

    fn alter_table(&mut self) -> Option<NodeEnum> {
        let relation = Some(self.relation()?);
        if self.words(&["RENAME", "TO"]) {
            return Some(NodeEnum::RenameStmt(RenameStmt {
                rename_type: ObjectType::ObjectTable,
                relation,
                subname: String::new(),
                newname: self.ident()?,
            }));
        }
        if self.word("RENAME") {
            self.word("COLUMN");
            let subname = self.ident()?;
            if !self.word("TO") {
                return None;
            }
            return Some(NodeEnum::RenameStmt(RenameStmt {
                rename_type: ObjectType::ObjectColumn,
                relation,
                subname,
                newname: self.ident()?,
            }));
        }
        let mut cmds = vec![self.alter_command()?];
        while self.symbol(',') {
            cmds.push(self.alter_command()?);
        }
        Some(NodeEnum::AlterTableStmt(AlterTableStmt { relation, cmds }))
    }

    fn alter_domain(&mut self) -> Option<NodeEnum> {
        let typename = vec![NodeEnum::String(self.ident()?)];
        let (subtype, def) = if self.word("ADD") {
            ("C", Some(Box::new(self.constraint()?)))
        } else if self.words(&["DROP", "CONSTRAINT"]) {
            self.ident()?;
            ("X", None)
        } else if self.words(&["SET", "DEFAULT"]) {
            ("T", Some(Box::new(self.expression()?)))
        } else {
            return None;
        };
        let subtype = subtype.to_string();
        Some(NodeEnum::AlterDomainStmt(AlterDomainStmt { subtype, typename, def }))
    }

    fn create_table(&mut self, persistence: &str) -> Option<NodeEnum> {
        let if_not_exists = self.words(&["IF", "NOT", "EXISTS"]);
        let mut relation = self.relation()?;
        relation.relpersistence = persistence.to_string();
        if !self.symbol('(') {
            return None;
        }
        let mut table_elts = Vec::new();
        while !self.symbol(')') {
            if self.word("LIKE") {
                self.relation()?;
                table_elts.push(NodeEnum::TableLikeClause);
            } else if self.starts_constraint() {
                table_elts.push(self.constraint()?);
            } else {
                table_elts.push(self.column()?);
            }
            if !self.symbol(',') && self.toks.get(self.at) != Some(&Tok::Symbol(')')) {
                return None;
            }
        }
        Some(NodeEnum::CreateStmt(CreateStmt {
            relation: Some(relation),
            table_elts,
            if_not_exists,
        }))
    }

    fn create_index(&mut self, unique: bool) -> Option<NodeEnum> {
        let concurrent = self.word("CONCURRENTLY");
        let if_not_exists = self.words(&["IF", "NOT", "EXISTS"]);
        let idxname = if self.peek_word(0, "ON") { String::new() } else { self.ident()? };
        if !self.word("ON") {
            return None;
        }
        let relation = Some(self.relation()?);
        if !self.symbol('(') {
            return None;
        }
        let mut index_params = Vec::new();
        loop {
            let mut name = self.ident()?;
            if self.symbol('(') {
                self.skip_parens()?;
                name = String::new();
            }
            index_params.push(NodeEnum::IndexElem(IndexElem { name }));
            if self.symbol(')') {
                break;
            }
            if !self.symbol(',') {
                return None;
            }
        }
        Some(NodeEnum::IndexStmt(IndexStmt {
            idxname,
            relation,
            index_params,
            unique,
            concurrent,
            if_not_exists,
        }))
    }

    fn drop_objects(&mut self, remove_type: ObjectType) -> Option<NodeEnum> {
        let concurrent = self.word("CONCURRENTLY");
        let missing_ok = self.words(&["IF", "EXISTS"]);
        let mut objects = Vec::new();
        loop {
            let mut segments = vec![NodeEnum::String(self.ident()?)];
            while self.symbol('.') {
                segments.push(NodeEnum::String(self.ident()?));
            }
            objects.push(NodeEnum::List(segments));
            if !self.symbol(',') {
                break;
            }
        }
        let behavior = if self.word("CASCADE") {
            DropBehavior::DropCascade
        } else {
            self.word("RESTRICT");
            DropBehavior::DropRestrict
        };
        Some(NodeEnum::DropStmt(DropStmt {
            objects,
            remove_type,
            behavior,
            missing_ok,
            concurrent,
        }))
    }

    fn reindex(&mut self) -> Option<NodeEnum> {
        let kinds = ["INDEX", "TABLE", "SCHEMA", "SYSTEM", "DATABASE"];
        let kind = kinds.iter().position(|k| self.peek_word(0, k))?;
        self.at += 1;
        let mut params = Vec::new();
        if self.word("CONCURRENTLY") {
            params.push(NodeEnum::DefElem(DefElem { defname: "concurrently".to_string() }));
        }
        let mut stmt = ReindexStmt { kind: kind as i32 + 1, params, ..ReindexStmt::default() };
        if kind < 2 {
            stmt.relation = Some(self.relation()?);
        } else {
            stmt.name = self.ident()?;
        }
        Some(NodeEnum::ReindexStmt(stmt))
    }

    fn rest(&mut self) -> NodeEnum {
        self.at = self.toks.len();
        NodeEnum::Other
    }

    fn where_clause(&mut self) -> Option<Option<Box<NodeEnum>>> {
        while !self.done() && !self.peek_word(0, "WHERE") {
            self.at += 1;
        }
        if !self.word("WHERE") {
            return Some(None);
        }
        self.rest();
        Some(Some(Box::new(NodeEnum::Other)))
    }

    fn statement(&mut self) -> Option<NodeEnum> {
        if self.words(&["ALTER", "TABLE"]) {
            self.alter_table()
        } else if self.words(&["ALTER", "DOMAIN"]) {
            self.alter_domain()
        } else if self.words(&["CREATE", "TABLE"]) {
            self.create_table("p")
        } else if self.words(&["CREATE", "TEMP", "TABLE"]) {
            self.create_table("t")
        } else if self.words(&["CREATE", "INDEX"]) {
            self.create_index(false)
        } else if self.words(&["CREATE", "UNIQUE", "INDEX"]) {
            self.create_index(true)
        } else if self.words(&["CREATE", "DATABASE"]) || self.words(&["CREATE", "DOMAIN"]) {
            Some(self.rest())
        } else if self.words(&["DROP", "TABLE"]) {
            self.drop_objects(ObjectType::ObjectTable)
        } else if self.words(&["DROP", "INDEX"]) {
            self.drop_objects(ObjectType::ObjectIndex)
        } else if self.words(&["DROP", "VIEW"]) {
            self.drop_objects(ObjectType::Other)
        } else if self.words(&["DROP", "DATABASE"]) {
            let missing_ok = self.words(&["IF", "EXISTS"]);
            Some(NodeEnum::DropdbStmt(DropdbStmt { dbname: self.ident()?, missing_ok }))
        } else if self.words(&["DELETE", "FROM"]) {
            let relation = Some(self.relation()?);
            let where_clause = self.where_clause()?;
            Some(NodeEnum::DeleteStmt(DeleteStmt { relation, where_clause }))
        } else if self.word("UPDATE") {
            let relation = Some(self.relation()?);
            let where_clause = self.where_clause()?;
            Some(NodeEnum::UpdateStmt(UpdateStmt { relation, where_clause }))
        } else if self.word("TRUNCATE") {
            self.word("TABLE");
            let mut relations = vec![NodeEnum::RangeVar(self.relation()?)];
            while self.symbol(',') {
                relations.push(NodeEnum::RangeVar(self.relation()?));
            }
            self.word("CASCADE");
            Some(NodeEnum::TruncateStmt(TruncateStmt { relations }))
        } else if self.words(&["REFRESH", "MATERIALIZED", "VIEW"]) {
            let concurrent = self.word("CONCURRENTLY");
            let relation = Some(self.relation()?);
            Some(NodeEnum::RefreshMatViewStmt(RefreshMatViewStmt { concurrent, relation }))
        } else if self.word("REINDEX") {
            self.reindex()
        } else if self.word("SELECT") || self.word("INSERT") {
            Some(self.rest())
        } else {
            None
        }
    }
}

/// What the parser finds in a script.
fn parse(sql: &str) -> Result<Statements, DieselGuardError> {
    let found = tokens(sql);
    let mut stmts = Vec::new();
    let mut location = 0;
    let mut group: Vec<(usize, Tok)> = Vec::new();
    let end = (sql.len(), Tok::Symbol(';'));
    for (start, tok) in found.iter().chain(std::iter::once(&end)) {
        if *tok != Tok::Symbol(';') {
            group.push((*start, tok.clone()));
            continue;
        }
        if !group.is_empty() {
            let toks = group.iter().map(|(_, tok)| tok.clone()).collect();
            let mut parser = Parser { toks, at: 0 };
            let stmt = parser.statement();
            if stmt.is_none() || !parser.done() {
                let at = parser.at.min(group.len() - 1);
                let near = &sql[group[at].0..group[at].0 + 1];
                return Err(DieselGuardError::ParseError {
                    msg: format!("Invalid statement: syntax error at or near \"{near}\""),
                    src: None,
                    span: Some(SourceSpan { offset: group[0].0, length: 0 }),
                });
            }
            stmts.push(RawStmt { stmt, stmt_location: location as i32 });
        }
        group.clear();
        location = start + 1;
    }
    let token_starts = found.iter().map(|(start, _)| *start).collect();
    Ok(Statements { stmts, token_starts })
}

/// The only statement of a script.
fn parse_sql(sql: &str) -> NodeEnum {
    let mut stmts = parse(sql).expect("valid SQL").stmts;
    assert_eq!(stmts.len(), 1);
    stmts.remove(0).stmt.expect("a statement")
}

// ---------------------------------------------------------------------------
// Assertions
// ---------------------------------------------------------------------------

fn run(check: &dyn Check, sql: &str, ctx: &MigrationContext) -> Vec<Violation> {
    check.check(&parse_sql(sql), &Config::default(), ctx)
}

fn mentions(violation: &Violation, text: &str) -> bool {
    violation.problem.contains(text) || violation.safe_alternative.contains(text)
}

fn assert_allows_with_context(check: &dyn Check, sql: &str, ctx: MigrationContext) {
    assert_eq!(run(check, sql, &ctx).len(), 0, "{sql}");
}

fn assert_allows(check: &dyn Check, sql: &str) {
    assert_allows_with_context(check, sql, MigrationContext::default());
}

fn assert_detects_violation_with_context(
    check: &dyn Check,
    sql: &str,
    operation: &str,
    ctx: MigrationContext,
) {
    let violations = run(check, sql, &ctx);
    assert_eq!(violations.len(), 1, "{sql}");
    assert_eq!(violations[0].operation, operation);
}

fn assert_detects_violation(check: &dyn Check, sql: &str, operation: &str) {
    assert_detects_violation_with_context(check, sql, operation, MigrationContext::default());
}

fn assert_detects_violation_containing(
    check: &dyn Check,
    sql: &str,
    operation: &str,
    texts: &[&str],
) {
    let violations = run(check, sql, &MigrationContext::default());
    assert_eq!(violations.len(), 1, "{sql}");
    assert_eq!(violations[0].operation, operation);
    for text in texts {
        assert!(mentions(&violations[0], text), "{text}");
    }
}

fn assert_detects_n_violations(check: &dyn Check, sql: &str, n: usize, operation: &str) {
    let violations = run(check, sql, &MigrationContext::default());
    assert_eq!(violations.len(), n, "{sql}");
    for violation in &violations {
        assert_eq!(violation.operation, operation);
    }
}

fn assert_detects_n_violations_any_containing(
    check: &dyn Check,
    sql: &str,
    n: usize,
    texts: &[&str],
) {
    let violations = run(check, sql, &MigrationContext::default());
    assert_eq!(violations.len(), n, "{sql}");
    for text in texts {
        assert!(violations.iter().any(|violation| mentions(violation, text)), "{text}");
    }
}

// --- add domain check constraint ---

#[test]
fn test_detects_alter_domain_add_check_without_not_valid() {
    assert_detects_violation(
        &AddDomainCheckConstraintCheck,
        "ALTER DOMAIN positive_int ADD CONSTRAINT pos_check CHECK (VALUE > 0);",
        "ADD CHECK CONSTRAINT TO DOMAIN",
    );
}

#[test]
fn test_allows_alter_domain_add_check_not_valid() {
    assert_allows(
        &AddDomainCheckConstraintCheck,
        "ALTER DOMAIN positive_int ADD CONSTRAINT pos_check CHECK (VALUE > 0) NOT VALID;",
    );
}

#[test]
fn test_allows_create_domain_with_check() {
    // CREATE DOMAIN is always safe: no tables use the domain yet.
    assert_allows(
        &AddDomainCheckConstraintCheck,
        "CREATE DOMAIN positive_int AS INTEGER CHECK (VALUE > 0);",
    );
}

#[test]
fn test_allows_alter_domain_drop_constraint() {
    assert_allows(
        &AddDomainCheckConstraintCheck,
        "ALTER DOMAIN positive_int DROP CONSTRAINT pos_check;",
    );
}

#[test]
fn test_allows_alter_domain_set_default() {
    assert_allows(&AddDomainCheckConstraintCheck, "ALTER DOMAIN positive_int SET DEFAULT 0;");
}

#[test]
fn test_ignores_non_domain_nodes() {
    assert_allows(&AddDomainCheckConstraintCheck, "CREATE TABLE foo (id int);");
}

#[test]
fn test_allows_alter_domain_add_not_null_constraint() {
    // NOT NULL is not a CHECK constraint — the check only flags CHECK without NOT VALID.
    assert_allows(
        &AddDomainCheckConstraintCheck,
        "ALTER DOMAIN positive_int ADD CONSTRAINT c NOT NULL;",
    );
}

// --- add exclude constraint ---

#[test]
fn test_detects_exclude_constraint() {
    assert_detects_violation(
        &AddExcludeConstraintCheck,
        "ALTER TABLE meeting_rooms ADD CONSTRAINT no_double_booking EXCLUDE USING gist (room_id WITH =);",
        "ADD EXCLUDE constraint",
    );
}

#[test]
fn test_ignores_check_constraint() {
    assert_allows(
        &AddExcludeConstraintCheck,
        "ALTER TABLE orders ADD CONSTRAINT check_amount CHECK (amount > 0) NOT VALID;",
    );
}

#[test]
fn add_exclude_constraint_test_ignores_add_column() {
    assert_allows(&AddExcludeConstraintCheck, "ALTER TABLE users ADD COLUMN email TEXT;");
}

#[test]
fn add_exclude_constraint_test_ignores_create_table() {
    assert_allows(
        &AddExcludeConstraintCheck,
        "CREATE TABLE users (id BIGINT PRIMARY KEY, email TEXT);",
    );
}

// --- add foreign key ---

#[test]
fn test_detects_add_foreign_key() {
    assert_detects_violation(
        &AddForeignKeyCheck,
        "ALTER TABLE posts ADD FOREIGN KEY (user_id) REFERENCES users(id);",
        "ADD FOREIGN KEY",
    );
}

#[test]
fn test_detects_named_foreign_key() {
    assert_detects_violation(
        &AddForeignKeyCheck,
        "ALTER TABLE posts ADD CONSTRAINT posts_user_id_fkey FOREIGN KEY (user_id) REFERENCES users(id);",
        "ADD FOREIGN KEY",
    );
}

#[test]
fn test_allows_foreign_key_not_valid() {
    assert_allows(
        &AddForeignKeyCheck,
        "ALTER TABLE posts ADD FOREIGN KEY (user_id) REFERENCES users(id) NOT VALID;",
    );
}

#[test]
fn test_allows_named_foreign_key_not_valid() {
    assert_allows(
        &AddForeignKeyCheck,
        "ALTER TABLE posts ADD CONSTRAINT posts_user_id_fkey FOREIGN KEY (user_id) REFERENCES users(id) NOT VALID;",
    );
}

#[test]
fn test_allows_non_fk_constraint() {
    assert_allows(
        &AddForeignKeyCheck,
        "ALTER TABLE users ADD CONSTRAINT age_positive CHECK (age > 0);",
    );
}

#[test]
fn add_foreign_key_test_ignores_other_statements() {
    assert_allows(&AddForeignKeyCheck, "CREATE TABLE users (id SERIAL PRIMARY KEY);");
}

#[test]
fn add_foreign_key_test_ignores_add_column() {
    assert_allows(&AddForeignKeyCheck, "ALTER TABLE users ADD COLUMN email TEXT;");
}

#[test]
fn test_violation_contains_table_and_column_names() {
    assert_detects_violation_containing(
        &AddForeignKeyCheck,
        "ALTER TABLE posts ADD CONSTRAINT posts_user_id_fkey FOREIGN KEY (user_id) REFERENCES users(id);",
        "ADD FOREIGN KEY",
        &["posts", "posts_user_id_fkey", "user_id"],
    );
}

#[test]
fn test_safe_alternative_contains_not_valid_steps() {
    let stmt = parse_sql(
        "ALTER TABLE posts ADD CONSTRAINT posts_user_id_fkey FOREIGN KEY (user_id) REFERENCES users(id);",
    );
    let violations =
        AddForeignKeyCheck.check(&stmt, &Config::default(), &MigrationContext::default());
    assert_eq!(violations.len(), 1);
    assert!(
        violations[0].safe_alternative.contains("NOT VALID"),
        "Expected NOT VALID in safe_alternative"
    );
    assert!(
        violations[0]
            .safe_alternative
            .contains("VALIDATE CONSTRAINT"),
        "Expected VALIDATE CONSTRAINT in safe_alternative"
    );
}

// --- add index ---

#[test]
fn test_detects_create_index_without_concurrently() {
    assert_detects_violation(
        &AddIndexCheck,
        "CREATE INDEX idx_users_email ON users(email);",
        "ADD INDEX without CONCURRENTLY",
    );
}

#[test]
fn test_detects_create_unique_index_without_concurrently() {
    assert_detects_violation_containing(
        &AddIndexCheck,
        "CREATE UNIQUE INDEX idx_users_email ON users(email);",
        "ADD INDEX without CONCURRENTLY",
        &["UNIQUE"],
    );
}

#[test]
fn test_allows_create_index_with_concurrently_outside_transaction() {
    assert_allows_with_context(
        &AddIndexCheck,
        "CREATE INDEX CONCURRENTLY idx_users_email ON users(email);",
        MigrationContext {
            run_in_transaction: false,
            ..MigrationContext::default()
        },
    );
}

#[test]
fn test_allows_create_unique_index_with_concurrently_outside_transaction() {
    assert_allows_with_context(
        &AddIndexCheck,
        "CREATE UNIQUE INDEX CONCURRENTLY idx_users_email ON users(email);",
        MigrationContext {
            run_in_transaction: false,
            ..MigrationContext::default()
        },
    );
}

#[test]
fn add_index_test_detects_concurrent_in_transaction() {
    assert_detects_violation_with_context(
        &AddIndexCheck,
        "CREATE INDEX CONCURRENTLY idx_users_email ON users(email);",
        "CREATE INDEX CONCURRENTLY inside a transaction",
        MigrationContext {
            run_in_transaction: true,
            ..MigrationContext::default()
        },
    );
}

#[test]
fn add_index_test_allows_concurrent_outside_transaction() {
    assert_allows_with_context(
        &AddIndexCheck,
        "CREATE INDEX CONCURRENTLY idx_users_email ON users(email);",
        MigrationContext {
            run_in_transaction: false,
            ..MigrationContext::default()
        },
    );
}

#[test]
fn add_index_test_ignores_other_statements() {
    let stmt = parse_sql("CREATE TABLE users (id SERIAL PRIMARY KEY);");
    let violations =
        AddIndexCheck.check(&stmt, &Config::default(), &MigrationContext::default());
    assert_eq!(violations.len(), 0);
}

#[test]
fn add_index_test_safe_alternative_includes_transaction_hint_when_in_transaction() {
    let stmt = parse_sql("CREATE INDEX idx_users_email ON users(email);");
    let violations = AddIndexCheck.check(
        &stmt,
        &Config::default(),
        &MigrationContext {
            run_in_transaction: true,
            no_transaction_hint: "Create `metadata.toml` with `run_in_transaction = false`.",
            ..MigrationContext::default()
        },
    );
    assert_eq!(violations.len(), 1);
    assert!(
        violations[0]
            .safe_alternative
            .contains("Create `metadata.toml` with `run_in_transaction = false`."),
        "Expected transaction hint in safe_alternative"
    );
    assert!(
        violations[0]
            .safe_alternative
            .contains("CONCURRENTLY cannot run inside a transaction block"),
        "Expected transaction note in safe_alternative"
    );
}

#[test]
fn add_index_test_safe_alternative_omits_transaction_hint_when_outside_transaction() {
    let stmt = parse_sql("CREATE INDEX idx_users_email ON users(email);");
    let violations = AddIndexCheck.check(
        &stmt,
        &Config::default(),
        &MigrationContext {
            run_in_transaction: false,
            no_transaction_hint: "Create `metadata.toml` with `run_in_transaction = false`.",
            ..MigrationContext::default()
        },
    );
    assert_eq!(violations.len(), 1);
    assert!(
        !violations[0]
            .safe_alternative
            .contains("Create `metadata.toml` with `run_in_transaction = false`."),
        "Expected no transaction hint in safe_alternative"
    );
}

#[test]
fn add_index_test_sqlx_framework_safe_alternative_message() {
    let stmt = parse_sql("CREATE INDEX CONCURRENTLY idx_users_email ON users(email);");
    let violations = AddIndexCheck.check(
        &stmt,
        &Config::default(),
        &MigrationContext {
            run_in_transaction: true,
            no_transaction_hint: "Add `-- no-transaction` as the first line of the migration file.",
            ..MigrationContext::default()
        },
    );
    assert_eq!(violations.len(), 1);
    assert_eq!(
        violations[0].safe_alternative,
        "Add `-- no-transaction` as the first line of the migration file."
    );
}

#[test]
fn add_index_test_diesel_framework_safe_alternative_message() {
    let stmt = parse_sql("CREATE INDEX CONCURRENTLY idx_users_email ON users(email);");
    let violations = AddIndexCheck.check(
        &stmt,
        &Config::default(),
        &MigrationContext {
            run_in_transaction: true,
            no_transaction_hint: "Create `metadata.toml` in the migration directory with `run_in_transaction = false`.",
            ..MigrationContext::default()
        },
    );
    assert_eq!(violations.len(), 1);
    assert_eq!(
        violations[0].safe_alternative,
        "Create `metadata.toml` in the migration directory with `run_in_transaction = false`."
    );
}

#[test]
fn test_unnamed_index_shows_placeholder_in_violation() {
    assert_detects_violation_containing(
        &AddIndexCheck,
        "CREATE INDEX ON users(email);",
        "ADD INDEX without CONCURRENTLY",
        &["<unnamed>"],
    );
}

// --- add json column ---

#[test]
fn test_detects_add_json_column() {
    assert_detects_violation(
        &AddJsonColumnCheck,
        "ALTER TABLE users ADD COLUMN properties JSON;",
        "ADD COLUMN with JSON type",
    );
}

#[test]
fn test_detects_add_json_column_with_constraint() {
    assert_detects_violation(
        &AddJsonColumnCheck,
        "ALTER TABLE users ADD COLUMN metadata JSON NOT NULL;",
        "ADD COLUMN with JSON type",
    );
}

#[test]
fn test_allows_add_jsonb_column() {
    assert_allows(&AddJsonColumnCheck, "ALTER TABLE users ADD COLUMN properties JSONB;");
}

#[test]
fn test_allows_add_jsonb_column_with_constraint() {
    assert_allows(
        &AddJsonColumnCheck,
        "ALTER TABLE users ADD COLUMN metadata JSONB NOT NULL;",
    );
}

#[test]
fn add_json_column_test_allows_other_column_types() {
    assert_allows(&AddJsonColumnCheck, "ALTER TABLE users ADD COLUMN name TEXT;");
}

#[test]
fn test_allows_create_table_with_json() {
    // Only ALTER TABLE ADD COLUMN is problematic - CREATE TABLE is fine
    // because there are no existing queries to break
    assert_allows(
        &AddJsonColumnCheck,
        "CREATE TABLE users (id SERIAL PRIMARY KEY, data JSON);",
    );
}

#[test]
fn add_json_column_test_ignores_other_alter_operations() {
    assert_allows(&AddJsonColumnCheck, "ALTER TABLE users DROP COLUMN old_field;");
}

#[test]
fn add_json_column_test_ignores_other_statements() {
    assert_allows(&AddJsonColumnCheck, "SELECT * FROM users;");
}

// --- add not null ---

#[test]
fn test_detects_add_not_null() {
    assert_detects_violation(
        &AddNotNullCheck,
        "ALTER TABLE users ALTER COLUMN email SET NOT NULL;",
        "ADD NOT NULL constraint",
    );
}

#[test]
fn test_ignores_drop_not_null() {
    assert_allows(&AddNotNullCheck, "ALTER TABLE users ALTER COLUMN email DROP NOT NULL;");
}

#[test]
fn test_ignores_other_alter_column_operations() {
    assert_allows(
        &AddNotNullCheck,
        "ALTER TABLE users ALTER COLUMN email SET DEFAULT 'test@example.com';",
    );
}

#[test]
fn add_not_null_test_ignores_other_operations() {
    assert_allows(&AddNotNullCheck, "ALTER TABLE users ADD COLUMN email VARCHAR(255);");
}

#[test]
fn add_not_null_test_ignores_other_statements() {
    assert_allows(&AddNotNullCheck, "CREATE TABLE users (id SERIAL PRIMARY KEY);");
}

// --- add primary key ---

#[test]
fn test_detects_add_primary_key_single_column() {
    assert_detects_violation(
        &AddPrimaryKeyCheck,
        "ALTER TABLE users ADD PRIMARY KEY (id);",
        "ADD PRIMARY KEY",
    );
}

#[test]
fn test_detects_add_primary_key_composite() {
    assert_detects_violation(
        &AddPrimaryKeyCheck,
        "ALTER TABLE user_roles ADD PRIMARY KEY (user_id, role_id);",
        "ADD PRIMARY KEY",
    );
}

#[test]
fn test_detects_add_primary_key_with_constraint_name() {
    assert_detects_violation(
        &AddPrimaryKeyCheck,
        "ALTER TABLE users ADD CONSTRAINT users_pkey PRIMARY KEY (id);",
        "ADD PRIMARY KEY",
    );
}

#[test]
fn test_allows_primary_key_using_index() {
    assert_allows(
        &AddPrimaryKeyCheck,
        "ALTER TABLE users ADD CONSTRAINT users_pkey PRIMARY KEY USING INDEX users_pkey;",
    );
}

#[test]
fn test_allows_create_table_with_primary_key() {
    // Creating a table with PK is fine - only ALTER TABLE is problematic
    assert_allows(
        &AddPrimaryKeyCheck,
        "CREATE TABLE users (id SERIAL PRIMARY KEY, email TEXT);",
    );
}

#[test]
fn test_allows_add_unique_constraint() {
    // UNIQUE constraints are handled by AddUniqueConstraintCheck
    assert_allows(
        &AddPrimaryKeyCheck,
        "ALTER TABLE users ADD CONSTRAINT users_email_key UNIQUE (email);",
    );
}

#[test]
fn test_allows_add_foreign_key() {
    assert_allows(
        &AddPrimaryKeyCheck,
        "ALTER TABLE posts ADD CONSTRAINT posts_user_id_fkey FOREIGN KEY (user_id) REFERENCES users(id);",
    );
}

#[test]
fn test_allows_add_check_constraint() {
    assert_allows(
        &AddPrimaryKeyCheck,
        "ALTER TABLE users ADD CONSTRAINT users_age_check CHECK (age >= 0);",
    );
}

#[test]
fn add_primary_key_test_ignores_other_alter_operations() {
    assert_allows(&AddPrimaryKeyCheck, "ALTER TABLE users ADD COLUMN email TEXT;");
}

#[test]
fn add_primary_key_test_ignores_other_statements() {
    assert_allows(&AddPrimaryKeyCheck, "SELECT * FROM users;");
}

// --- add serial column ---

#[test]
fn test_detects_add_column_with_serial() {
    assert_detects_violation(
        &AddSerialColumnCheck,
        "ALTER TABLE users ADD COLUMN id SERIAL;",
        "ADD COLUMN with SERIAL",
    );
}

#[test]
fn test_detects_add_column_with_bigserial() {
    assert_detects_violation(
        &AddSerialColumnCheck,
        "ALTER TABLE users ADD COLUMN id BIGSERIAL;",
        "ADD COLUMN with SERIAL",
    );
}

#[test]
fn test_detects_add_column_with_smallserial() {
    assert_detects_violation(
        &AddSerialColumnCheck,
        "ALTER TABLE users ADD COLUMN id SMALLSERIAL;",
        "ADD COLUMN with SERIAL",
    );
}

#[test]
fn test_allows_add_column_with_integer() {
    assert_allows(&AddSerialColumnCheck, "ALTER TABLE users ADD COLUMN count INTEGER;");
}

#[test]
fn test_allows_create_table_with_serial() {
    assert_allows(&AddSerialColumnCheck, "CREATE TABLE users (id SERIAL PRIMARY KEY);");
}

#[test]
fn add_serial_column_test_ignores_other_statements() {
    assert_allows(&AddSerialColumnCheck, "CREATE INDEX idx_users_email ON users(email);");
}

// --- char type ---

#[test]
fn test_detects_char_column_alter_table() {
    assert_detects_violation(
        &CharTypeCheck,
        "ALTER TABLE users ADD COLUMN country_code CHAR(2);",
        "ADD COLUMN with CHAR type",
    );
}

#[test]
fn test_detects_character_column_alter_table() {
    assert_detects_violation(
        &CharTypeCheck,
        "ALTER TABLE users ADD COLUMN status CHARACTER(1);",
        "ADD COLUMN with CHAR type",
    );
}

#[test]
fn test_detects_char_column_create_table() {
    assert_detects_violation(
        &CharTypeCheck,
        "CREATE TABLE users (id SERIAL PRIMARY KEY, country_code CHAR(2));",
        "CREATE TABLE with CHAR type",
    );
}

#[test]
fn test_detects_char_with_explicit_length() {
    assert_detects_violation_containing(
        &CharTypeCheck,
        "ALTER TABLE products ADD COLUMN sku CHAR(10);",
        "ADD COLUMN with CHAR type",
        &["CHAR(10)"],
    );
}

#[test]
fn test_detects_char_without_explicit_length() {
    // CHAR without length defaults to CHAR(1)
    assert_detects_violation_containing(
        &CharTypeCheck,
        "ALTER TABLE flags ADD COLUMN flag CHAR;",
        "ADD COLUMN with CHAR type",
        &["CHAR(1)"],
    );
}

#[test]
fn test_detects_multiple_char_columns() {
    assert_detects_n_violations_any_containing(
        &CharTypeCheck,
        "CREATE TABLE locations (id SERIAL PRIMARY KEY, country CHAR(2), region CHAR(3));",
        2,
        &["country", "region"],
    );
}

#[test]
fn test_allows_varchar_column() {
    assert_allows(&CharTypeCheck, "ALTER TABLE users ADD COLUMN name VARCHAR(255);");
}

#[test]
fn test_allows_text_column() {
    assert_allows(&CharTypeCheck, "ALTER TABLE users ADD COLUMN bio TEXT;");
}

#[test]
fn char_type_test_allows_other_column_types() {
    assert_allows(&CharTypeCheck, "ALTER TABLE users ADD COLUMN age INT;");
    assert_allows(&CharTypeCheck, "ALTER TABLE users ADD COLUMN active BOOLEAN;");
    assert_allows(&CharTypeCheck, "ALTER TABLE users ADD COLUMN created_at TIMESTAMP;");
}

#[test]
fn test_allows_create_table_without_char() {
    assert_allows(
        &CharTypeCheck,
        "CREATE TABLE users (id SERIAL PRIMARY KEY, name TEXT, email VARCHAR(255));",
    );
}

#[test]
fn char_type_test_ignores_other_alter_operations() {
    assert_allows(&CharTypeCheck, "ALTER TABLE users DROP COLUMN old_field;");
}

#[test]
fn char_type_test_ignores_other_statements() {
    assert_allows(&CharTypeCheck, "SELECT * FROM users;");
}

// --- create table serial ---

#[test]
fn test_detects_create_table_with_serial() {
    assert_detects_violation(
        &CreateTableSerialCheck,
        "CREATE TABLE users (id SERIAL PRIMARY KEY);",
        "CREATE TABLE with SERIAL",
    );
}

#[test]
fn test_detects_create_table_with_bigserial() {
    assert_detects_violation(
        &CreateTableSerialCheck,
        "CREATE TABLE events (id BIGSERIAL PRIMARY KEY);",
        "CREATE TABLE with SERIAL",
    );
}

#[test]
fn test_detects_create_table_with_smallserial() {
    assert_detects_violation(
        &CreateTableSerialCheck,
        "CREATE TABLE users (id SMALLSERIAL PRIMARY KEY);",
        "CREATE TABLE with SERIAL",
    );
}

#[test]
fn test_allows_create_table_with_identity() {
    assert_allows(
        &CreateTableSerialCheck,
        "CREATE TABLE users (id BIGINT GENERATED BY DEFAULT AS IDENTITY PRIMARY KEY);",
    );
}

#[test]
fn test_allows_alter_table_add_serial() {
    assert_allows(&CreateTableSerialCheck, "ALTER TABLE users ADD COLUMN id SERIAL;");
}

#[test]
fn test_detects_create_table_with_non_primary_key_serial() {
    assert_detects_violation(
        &CreateTableSerialCheck,
        "CREATE TABLE users (event_no SERIAL, id BIGINT PRIMARY KEY);",
        "CREATE TABLE with SERIAL",
    );
}

#[test]
fn create_table_serial_test_ignores_other_statements() {
    assert_allows(&CreateTableSerialCheck, "CREATE INDEX idx_users_email ON users(email);");
}

#[test]
fn test_detects_create_table_with_serial_in_table_level_primary_key() {
    assert_detects_violation(
        &CreateTableSerialCheck,
        "CREATE TABLE users (id SERIAL, name TEXT, PRIMARY KEY (id));",
        "CREATE TABLE with SERIAL",
    );
}

#[test]
fn test_detects_create_table_with_serial_on_non_primary_key_table_level_column() {
    assert_detects_violation(
        &CreateTableSerialCheck,
        "CREATE TABLE users (event_no SERIAL, id BIGINT, PRIMARY KEY (id));",
        "CREATE TABLE with SERIAL",
    );
}

#[test]
fn test_safe_alternative_omits_primary_key_for_composite_primary_key() {
    let stmt = parse_sql(
        "CREATE TABLE users (tenant_id BIGINT, id SERIAL, PRIMARY KEY (tenant_id, id));",
    );
    let violations =
        CreateTableSerialCheck.check(&stmt, &Config::default(), &MigrationContext::default());

    assert_eq!(violations.len(), 1, "Expected exactly 1 violation");
    assert_eq!(violations[0].operation, "CREATE TABLE with SERIAL");
    assert!(
        violations[0]
            .safe_alternative
            .contains("GENERATED BY DEFAULT AS IDENTITY")
    );
    assert!(!violations[0].safe_alternative.contains("PRIMARY KEY"));
}

#[test]
fn test_safe_alternative_preserves_primary_key() {
    let stmt = parse_sql("CREATE TABLE events (id BIGSERIAL PRIMARY KEY);");
    let violations =
        CreateTableSerialCheck.check(&stmt, &Config::default(), &MigrationContext::default());

    assert_eq!(violations.len(), 1, "Expected exactly 1 violation");
    assert!(violations[0].safe_alternative.contains("BIGINT"));
    assert!(violations[0].safe_alternative.contains("PRIMARY KEY"));
}

#[test]
fn test_non_primary_key_safe_alternative_preserves_inline_constraints() {
    let stmt = parse_sql(
        "CREATE TABLE users (external_id SERIAL NOT NULL UNIQUE, id BIGINT PRIMARY KEY);",
    );
    let violations =
        CreateTableSerialCheck.check(&stmt, &Config::default(), &MigrationContext::default());

    assert_eq!(violations.len(), 1, "Expected exactly 1 violation");
    assert!(
        violations[0]
            .safe_alternative
            .contains("GENERATED BY DEFAULT AS IDENTITY NOT NULL UNIQUE")
    );
}

#[test]
fn test_pre_pg10_safe_alternative_uses_explicit_sequence() {
    let stmt = parse_sql("CREATE TABLE users (id SERIAL PRIMARY KEY);");
    let violations = CreateTableSerialCheck.check(
        &stmt,
        &Config {
            postgres_version: Some(9),
            ..Config::default()
        },
        &MigrationContext::default(),
    );

    assert_eq!(violations.len(), 1, "Expected exactly 1 violation");
    assert!(
        violations[0]
            .safe_alternative
            .contains("Identity columns require PostgreSQL 10+")
    );
    assert!(
        violations[0]
            .safe_alternative
            .contains("CREATE SEQUENCE users_id_seq")
    );
    assert!(violations[0].safe_alternative.contains("PRIMARY KEY"));
}

#[test]
fn test_pre_pg10_regular_serial_preserves_inline_constraints() {
    let stmt = parse_sql(
        "CREATE TABLE users (external_id SERIAL NOT NULL UNIQUE, id BIGINT PRIMARY KEY);",
    );
    let violations = CreateTableSerialCheck.check(
        &stmt,
        &Config {
            postgres_version: Some(9),
            ..Config::default()
        },
        &MigrationContext::default(),
    );

    assert_eq!(violations.len(), 1, "Expected exactly 1 violation");
    assert!(
        violations[0]
            .safe_alternative
            .contains("CREATE TABLE users (external_id INTEGER NOT NULL UNIQUE);")
    );
    assert!(!violations[0].safe_alternative.contains("PRIMARY KEY"));
}

// --- create table without pk ---

#[test]
fn test_detects_table_without_pk() {
    assert_detects_violation(
        &CreateTableWithoutPkCheck,
        "CREATE TABLE events (name TEXT, payload JSONB);",
        "CREATE TABLE without PRIMARY KEY",
    );
}

#[test]
fn test_detects_single_column_table_without_pk() {
    assert_detects_violation(
        &CreateTableWithoutPkCheck,
        "CREATE TABLE tags (name TEXT);",
        "CREATE TABLE without PRIMARY KEY",
    );
}

#[test]
fn test_allows_inline_pk() {
    assert_allows(
        &CreateTableWithoutPkCheck,
        "CREATE TABLE users (id BIGINT PRIMARY KEY, email TEXT);",
    );
}

#[test]
fn test_allows_table_level_pk() {
    assert_allows(
        &CreateTableWithoutPkCheck,
        "CREATE TABLE users (id BIGINT, email TEXT, PRIMARY KEY (id));",
    );
}

#[test]
fn test_allows_composite_pk() {
    assert_allows(
        &CreateTableWithoutPkCheck,
        "CREATE TABLE order_items (order_id BIGINT, item_id BIGINT, PRIMARY KEY (order_id, item_id));",
    );
}

#[test]
fn test_allows_identity_column_pk() {
    assert_allows(
        &CreateTableWithoutPkCheck,
        "CREATE TABLE users (id BIGINT GENERATED ALWAYS AS IDENTITY PRIMARY KEY, name TEXT);",
    );
}

#[test]
fn test_ignores_temp_table() {
    assert_allows(&CreateTableWithoutPkCheck, "CREATE TEMP TABLE staging (raw TEXT);");
}

#[test]
fn test_ignores_like_clause() {
    assert_allows(&CreateTableWithoutPkCheck, "CREATE TABLE users_archive (LIKE users);");
}

#[test]
fn create_table_without_pk_test_ignores_other_statements() {
    assert_allows(&CreateTableWithoutPkCheck, "ALTER TABLE users ADD COLUMN age INT;");
}

// --- drop column ---

#[test]
fn test_detects_drop_column() {
    assert_detects_violation(
        &DropColumnCheck,
        "ALTER TABLE users DROP COLUMN email;",
        "DROP COLUMN",
    );
}

#[test]
fn test_detects_drop_column_if_exists() {
    assert_detects_violation(
        &DropColumnCheck,
        "ALTER TABLE users DROP COLUMN IF EXISTS email;",
        "DROP COLUMN",
    );
}

#[test]
fn test_detects_drop_multiple_columns() {
    assert_detects_n_violations(
        &DropColumnCheck,
        "ALTER TABLE users DROP COLUMN a, DROP COLUMN b;",
        2,
        "DROP COLUMN",
    );
}

#[test]
fn drop_column_test_ignores_other_operations() {
    assert_allows(&DropColumnCheck, "ALTER TABLE users ADD COLUMN email VARCHAR(255);");
}

#[test]
fn drop_column_test_ignores_other_statements() {
    assert_allows(&DropColumnCheck, "CREATE TABLE users (id SERIAL PRIMARY KEY);");
}

// --- drop database ---

#[test]
fn test_detects_drop_database() {
    assert_detects_violation(&DropDatabaseCheck, "DROP DATABASE mydb;", "DROP DATABASE");
}

#[test]
fn test_detects_drop_database_if_exists() {
    assert_detects_violation(
        &DropDatabaseCheck,
        "DROP DATABASE IF EXISTS mydb;",
        "DROP DATABASE",
    );
}

#[test]
fn drop_database_test_ignores_drop_table() {
    assert_allows(&DropDatabaseCheck, "DROP TABLE users;");
}

#[test]
fn drop_database_test_ignores_drop_index() {
    assert_allows(&DropDatabaseCheck, "DROP INDEX idx_users_email;");
}

#[test]
fn test_ignores_create_database() {
    assert_allows(&DropDatabaseCheck, "CREATE DATABASE mydb;");
}

// --- drop index ---

#[test]
fn test_detects_drop_index() {
    assert_detects_violation(
        &DropIndexCheck,
        "DROP INDEX idx_users_email;",
        "DROP INDEX without CONCURRENTLY",
    );
}

#[test]
fn test_detects_drop_index_if_exists() {
    assert_detects_violation(
        &DropIndexCheck,
        "DROP INDEX IF EXISTS idx_users_email;",
        "DROP INDEX without CONCURRENTLY",
    );
}

#[test]
fn test_detects_drop_index_cascade() {
    assert_detects_violation(
        &DropIndexCheck,
        "DROP INDEX idx_users_email CASCADE;",
        "DROP INDEX without CONCURRENTLY",
    );
}

#[test]
fn test_detects_drop_index_restrict() {
    assert_detects_violation(
        &DropIndexCheck,
        "DROP INDEX idx_users_email RESTRICT;",
        "DROP INDEX without CONCURRENTLY",
    );
}

#[test]
fn test_detects_drop_multiple_indexes() {
    assert_detects_n_violations(
        &DropIndexCheck,
        "DROP INDEX idx1, idx2, idx3;",
        3,
        "DROP INDEX without CONCURRENTLY",
    );
}

#[test]
fn test_detects_drop_index_if_exists_cascade() {
    assert_detects_violation(
        &DropIndexCheck,
        "DROP INDEX IF EXISTS idx_users_email CASCADE;",
        "DROP INDEX without CONCURRENTLY",
    );
}

#[test]
fn test_allows_drop_index_concurrently_outside_transaction() {
    assert_allows_with_context(
        &DropIndexCheck,
        "DROP INDEX CONCURRENTLY idx_users_email;",
        MigrationContext {
            run_in_transaction: false,
            ..MigrationContext::default()
        },
    );
}

#[test]
fn drop_index_test_detects_concurrent_in_transaction() {
    assert_detects_violation_with_context(
        &DropIndexCheck,
        "DROP INDEX CONCURRENTLY idx_users_email;",
        "DROP INDEX CONCURRENTLY inside a transaction",
        MigrationContext {
            run_in_transaction: true,
            ..MigrationContext::default()
        },
    );
}

#[test]
fn drop_index_test_allows_concurrent_outside_transaction() {
    assert_allows_with_context(
        &DropIndexCheck,
        "DROP INDEX CONCURRENTLY idx_users_email;",
        MigrationContext {
            run_in_transaction: false,
            ..MigrationContext::default()
        },
    );
}

#[test]
fn drop_index_test_safe_alternative_includes_transaction_hint_when_in_transaction() {
    let stmt = parse_sql("DROP INDEX idx_users_email;");
    let violations = DropIndexCheck.check(
        &stmt,
        &Config::default(),
        &MigrationContext {
            run_in_transaction: true,
            no_transaction_hint: "Create `metadata.toml` with `run_in_transaction = false`.",
            ..MigrationContext::default()
        },
    );
    assert_eq!(violations.len(), 1);
    assert!(
        violations[0]
            .safe_alternative
            .contains("Create `metadata.toml` with `run_in_transaction = false`."),
        "Expected transaction hint in safe_alternative"
    );
    assert!(
        violations[0]
            .safe_alternative
            .contains("CONCURRENTLY cannot run inside a transaction block"),
        "Expected transaction note in safe_alternative"
    );
}

#[test]
fn drop_index_test_safe_alternative_omits_transaction_hint_when_outside_transaction() {
    let stmt = parse_sql("DROP INDEX idx_users_email;");
    let violations = DropIndexCheck.check(
        &stmt,
        &Config::default(),
        &MigrationContext {
            run_in_transaction: false,
            no_transaction_hint: "Create `metadata.toml` with `run_in_transaction = false`.",
            ..MigrationContext::default()
        },
    );
    assert_eq!(violations.len(), 1);
    assert!(
        !violations[0]
            .safe_alternative
            .contains("Create `metadata.toml` with `run_in_transaction = false`."),
        "Expected no transaction hint in safe_alternative"
    );
}

#[test]
fn test_ignores_other_drop_statements() {
    assert_allows(&DropIndexCheck, "DROP TABLE users;");
}

#[test]
fn drop_index_test_ignores_other_statements() {
    assert_allows(&DropIndexCheck, "CREATE INDEX idx_users_email ON users(email);");
}

#[test]
fn drop_index_test_sqlx_framework_safe_alternative_message() {
    let stmt = parse_sql("DROP INDEX CONCURRENTLY idx_users_email;");
    let violations = DropIndexCheck.check(
        &stmt,
        &Config::default(),
        &MigrationContext {
            run_in_transaction: true,
            no_transaction_hint: "Add `-- no-transaction` as the first line of the migration file.",
            ..MigrationContext::default()
        },
    );
    assert_eq!(violations.len(), 1);
    assert!(
        violations[0].safe_alternative.contains("-- no-transaction"),
        "Expected SQLx safe alternative message"
    );
}

#[test]
fn drop_index_test_diesel_framework_safe_alternative_message() {
    let stmt = parse_sql("DROP INDEX CONCURRENTLY idx_users_email;");
    let violations = DropIndexCheck.check(
        &stmt,
        &Config::default(),
        &MigrationContext {
            run_in_transaction: true,
            no_transaction_hint: "Create `metadata.toml` in the migration directory with `run_in_transaction = false`.",
            ..MigrationContext::default()
        },
    );
    assert_eq!(violations.len(), 1);
    assert!(
        violations[0].safe_alternative.contains("metadata.toml"),
        "Expected Diesel safe alternative message"
    );
}

// --- drop primary key ---

#[test]
fn test_detects_drop_primary_key_pkey_suffix() {
    assert_detects_violation(
        &DropPrimaryKeyCheck,
        "ALTER TABLE users DROP CONSTRAINT users_pkey;",
        "DROP PRIMARY KEY",
    );
}

#[test]
fn test_detects_drop_primary_key_pk_suffix() {
    assert_detects_violation(
        &DropPrimaryKeyCheck,
        "ALTER TABLE users DROP CONSTRAINT users_pk;",
        "DROP PRIMARY KEY",
    );
}

#[test]
fn test_detects_drop_primary_key_pk_prefix() {
    assert_detects_violation(
        &DropPrimaryKeyCheck,
        "ALTER TABLE users DROP CONSTRAINT pk_users;",
        "DROP PRIMARY KEY",
    );
}

#[test]
fn test_detects_drop_primary_key_primary_key_in_name() {
    assert_detects_violation(
        &DropPrimaryKeyCheck,
        "ALTER TABLE users DROP CONSTRAINT users_primary_key;",
        "DROP PRIMARY KEY",
    );
}

#[test]
fn test_allows_drop_unique_constraint() {
    assert_allows(&DropPrimaryKeyCheck, "ALTER TABLE users DROP CONSTRAINT users_email_key;");
}

#[test]
fn test_allows_drop_foreign_key_constraint() {
    assert_allows(
        &DropPrimaryKeyCheck,
        "ALTER TABLE posts DROP CONSTRAINT posts_user_id_fkey;",
    );
}

#[test]
fn test_allows_drop_check_constraint() {
    assert_allows(&DropPrimaryKeyCheck, "ALTER TABLE users DROP CONSTRAINT users_age_check;");
}

#[test]
fn test_ignores_add_constraint() {
    assert_allows(
        &DropPrimaryKeyCheck,
        "ALTER TABLE users ADD CONSTRAINT users_pkey PRIMARY KEY (id);",
    );
}

#[test]
fn drop_primary_key_test_ignores_other_statements() {
    assert_allows(&DropPrimaryKeyCheck, "CREATE TABLE users (id SERIAL PRIMARY KEY);");
}

// --- drop table ---

#[test]
fn test_detects_drop_table() {
    assert_detects_violation(&DropTableCheck, "DROP TABLE users;", "DROP TABLE");
}

#[test]
fn test_detects_drop_table_if_exists() {
    assert_detects_violation(&DropTableCheck, "DROP TABLE IF EXISTS users;", "DROP TABLE");
}

#[test]
fn test_detects_drop_table_cascade() {
    assert_detects_violation(&DropTableCheck, "DROP TABLE users CASCADE;", "DROP TABLE");
}

#[test]
fn test_detects_drop_table_restrict() {
    assert_detects_violation(&DropTableCheck, "DROP TABLE users RESTRICT;", "DROP TABLE");
}

#[test]
fn test_detects_drop_multiple_tables() {
    assert_detects_n_violations(
        &DropTableCheck,
        "DROP TABLE users, orders, products;",
        3,
        "DROP TABLE",
    );
}

#[test]
fn drop_table_test_ignores_drop_index() {
    assert_allows(&DropTableCheck, "DROP INDEX idx_users_email;");
}

#[test]
fn drop_table_test_ignores_truncate() {
    assert_allows(&DropTableCheck, "TRUNCATE TABLE users;");
}

#[test]
fn drop_table_test_ignores_create_table() {
    assert_allows(&DropTableCheck, "CREATE TABLE users (id SERIAL PRIMARY KEY);");
}

#[test]
fn test_ignores_alter_table() {
    assert_allows(&DropTableCheck, "ALTER TABLE users ADD COLUMN email VARCHAR(255);");
}

// --- generated column ---

#[test]
fn test_detects_add_column_generated_stored() {
    assert_detects_violation(
        &GeneratedColumnCheck,
        "ALTER TABLE products ADD COLUMN total_price INTEGER GENERATED ALWAYS AS (price * quantity) STORED;",
        "ADD COLUMN with GENERATED STORED",
    );
}

#[test]
fn test_detects_add_column_generated_stored_with_string_expression() {
    assert_detects_violation(
        &GeneratedColumnCheck,
        "ALTER TABLE users ADD COLUMN full_name TEXT GENERATED ALWAYS AS (first_name || ' ' || last_name) STORED;",
        "ADD COLUMN with GENERATED STORED",
    );
}

#[test]
fn test_ignores_safe_variant_regular_column() {
    assert_allows(&GeneratedColumnCheck, "ALTER TABLE users ADD COLUMN email TEXT;");
}

#[test]
fn test_ignores_safe_variant_column_with_default() {
    assert_allows(
        &GeneratedColumnCheck,
        "ALTER TABLE users ADD COLUMN status TEXT DEFAULT 'active';",
    );
}

#[test]
fn test_ignores_safe_variant_identity_column() {
    // GENERATED ALWAYS AS IDENTITY is not a stored generated column
    assert_allows(
        &GeneratedColumnCheck,
        "ALTER TABLE users ADD COLUMN id INTEGER GENERATED ALWAYS AS IDENTITY;",
    );
}

#[test]
fn generated_column_test_ignores_create_table() {
    // CREATE TABLE is safe because the table is empty
    assert_allows(
        &GeneratedColumnCheck,
        "CREATE TABLE products (id SERIAL PRIMARY KEY, price INTEGER, quantity INTEGER, total_price INTEGER GENERATED ALWAYS AS (price * quantity) STORED);",
    );
}

#[test]
fn generated_column_test_ignores_other_alter_operations() {
    assert_allows(&GeneratedColumnCheck, "ALTER TABLE users DROP COLUMN email;");
}

#[test]
fn generated_column_test_ignores_other_statements() {
    assert_allows(&GeneratedColumnCheck, "SELECT * FROM users;");
}

// --- idempotency alter ---

#[test]
fn test_detects_add_column_without_if_not_exists() {
    assert_detects_violation(
        &IdempotencyAlterCheck,
        "ALTER TABLE users ADD COLUMN email TEXT;",
        "ADD COLUMN without IF NOT EXISTS",
    );
}

#[test]
fn test_allows_add_column_with_if_not_exists() {
    assert_allows(
        &IdempotencyAlterCheck,
        "ALTER TABLE users ADD COLUMN IF NOT EXISTS email TEXT;",
    );
}

#[test]
fn test_detects_drop_column_without_if_exists() {
    assert_detects_violation(
        &IdempotencyAlterCheck,
        "ALTER TABLE users DROP COLUMN email;",
        "DROP COLUMN without IF EXISTS",
    );
}

#[test]
fn test_allows_drop_column_with_if_exists() {
    assert_allows(&IdempotencyAlterCheck, "ALTER TABLE users DROP COLUMN IF EXISTS email;");
}

#[test]
fn test_detects_multiple_add_columns_in_single_alter_table() {
    assert_detects_n_violations(
        &IdempotencyAlterCheck,
        "ALTER TABLE users ADD COLUMN email TEXT, ADD COLUMN phone TEXT;",
        2,
        "ADD COLUMN without IF NOT EXISTS",
    );
}

#[test]
fn test_detects_multiple_drop_columns_in_single_alter_table() {
    assert_detects_n_violations(
        &IdempotencyAlterCheck,
        "ALTER TABLE users DROP COLUMN email, DROP COLUMN phone;",
        2,
        "DROP COLUMN without IF EXISTS",
    );
}

#[test]
fn test_detects_only_unguarded_commands_in_mixed_alter_table() {
    let stmt = parse_sql(
        "ALTER TABLE users \
         ADD COLUMN IF NOT EXISTS email TEXT, \
         ADD COLUMN phone TEXT, \
         DROP COLUMN IF EXISTS old_email, \
         DROP COLUMN legacy_email;",
    );

    let violations =
        IdempotencyAlterCheck.check(&stmt, &Config::default(), &MigrationContext::default());
    assert_eq!(violations.len(), 2, "Expected exactly 2 violations");

    let operations: HashSet<&str> = violations.iter().map(|v| v.operation.as_str()).collect();
    let expected: HashSet<&str> = [
        "ADD COLUMN without IF NOT EXISTS",
        "DROP COLUMN without IF EXISTS",
    ]
    .into_iter()
    .collect();

    assert_eq!(operations, expected);
}

#[test]
fn test_allows_guarded_commands_in_mixed_alter_table() {
    assert_allows(
        &IdempotencyAlterCheck,
        "ALTER TABLE users \
         ADD COLUMN IF NOT EXISTS email TEXT, \
         DROP COLUMN IF EXISTS legacy_email;",
    );
}

#[test]
fn idempotency_alter_test_ignores_other_statements() {
    assert_allows(&IdempotencyAlterCheck, "ALTER TABLE users RENAME TO accounts;");
}

// --- idempotency create ---

#[test]
fn test_detects_create_table_without_if_not_exists() {
    assert_detects_violation(
        &IdempotencyCreateCheck,
        "CREATE TABLE users (id BIGINT PRIMARY KEY);",
        "CREATE TABLE without IF NOT EXISTS",
    );
}

#[test]
fn test_allows_create_table_with_if_not_exists() {
    assert_allows(
        &IdempotencyCreateCheck,
        "CREATE TABLE IF NOT EXISTS users (id BIGINT PRIMARY KEY);",
    );
}

#[test]
fn test_create_table_without_relation_uses_placeholder_name() {
    let violations = IdempotencyCreateCheck.check(
        &NodeEnum::CreateStmt(CreateStmt::default()),
        &Config::default(),
        &MigrationContext::default(),
    );

    assert_eq!(violations.len(), 1);
    assert_eq!(
        violations[0].problem,
        "CREATE TABLE for '<table_name>' is not idempotent. If this migration is retried after a partial failure, it can error because the table already exists."
    );
    assert_eq!(
        violations[0].safe_alternative,
        "Use IF NOT EXISTS to make retries safe:\n   CREATE TABLE IF NOT EXISTS <table_name> (...);"
    );
}

#[test]
fn idempotency_create_test_ignores_other_statements() {
    assert_allows(&IdempotencyCreateCheck, "ALTER TABLE users DROP COLUMN email;");
}

// --- idempotency drop ---

#[test]
fn test_detects_drop_table_without_if_exists() {
    assert_detects_violation(
        &IdempotencyDropCheck,
        "DROP TABLE users;",
        "DROP TABLE without IF EXISTS",
    );
}

#[test]
fn test_allows_drop_table_with_if_exists() {
    assert_allows(&IdempotencyDropCheck, "DROP TABLE IF EXISTS users;");
}

#[test]
fn test_detects_drop_index_without_if_exists() {
    assert_detects_violation(
        &IdempotencyDropCheck,
        "DROP INDEX CONCURRENTLY idx_users_email;",
        "DROP INDEX without IF EXISTS",
    );
}

#[test]
fn test_allows_drop_index_with_if_exists() {
    assert_allows(&IdempotencyDropCheck, "DROP INDEX CONCURRENTLY IF EXISTS idx_users_email;");
}

#[test]
fn test_detects_drop_index_without_concurrently_and_if_exists() {
    assert_detects_violation(
        &IdempotencyDropCheck,
        "DROP INDEX idx_users_email;",
        "DROP INDEX without IF EXISTS",
    );
}

#[test]
fn test_detects_multiple_drop_indexes_without_if_exists() {
    assert_detects_n_violations(
        &IdempotencyDropCheck,
        "DROP INDEX idx_a, idx_b;",
        2,
        "DROP INDEX without IF EXISTS",
    );
}

#[test]
fn test_detects_multiple_drop_tables_without_if_exists() {
    assert_detects_n_violations(
        &IdempotencyDropCheck,
        "DROP TABLE users, posts;",
        2,
        "DROP TABLE without IF EXISTS",
    );
}

#[test]
fn test_ignores_unsupported_drop_types() {
    assert_allows(&IdempotencyDropCheck, "DROP VIEW active_users;");
}

#[test]
fn test_ignores_drop_stmt_with_unsupported_object_type() {
    let violations = IdempotencyDropCheck.check(
        &NodeEnum::DropStmt(DropStmt::default()),
        &Config::default(),
        &MigrationContext::default(),
    );
    assert!(violations.is_empty());
}

// --- idempotency index ---

#[test]
fn test_detects_create_index_without_if_not_exists() {
    assert_detects_violation(
        &IdempotencyIndexCheck,
        "CREATE INDEX CONCURRENTLY idx_users_email ON users(email);",
        "CREATE INDEX without IF NOT EXISTS",
    );
}

#[test]
fn test_detects_create_index_without_name() {
    assert_detects_violation(
        &IdempotencyIndexCheck,
        "CREATE INDEX ON users(email);",
        "CREATE INDEX without IF NOT EXISTS",
    );
}

#[test]
fn test_allows_create_index_with_if_not_exists() {
    assert_allows(
        &IdempotencyIndexCheck,
        "CREATE INDEX CONCURRENTLY IF NOT EXISTS idx_users_email ON users(email);",
    );
}

#[test]
fn test_create_index_without_relation_uses_placeholders() {
    let violations = IdempotencyIndexCheck.check(
        &NodeEnum::IndexStmt(IndexStmt::default()),
        &Config::default(),
        &MigrationContext::default(),
    );

    assert_eq!(violations.len(), 1);
    assert_eq!(
        violations[0].problem,
        "CREATE INDEX '<unnamed>' on table '<table_name>' is not idempotent. If this migration is retried after a partial failure, it can error because the index already exists."
    );
    assert_eq!(
        violations[0].safe_alternative,
        "Use IF NOT EXISTS to make retries safe:\n   CREATE INDEX IF NOT EXISTS <index_name> ON <table_name> (...);"
    );
}

#[test]
fn idempotency_index_test_ignores_other_statements() {
    assert_allows(&IdempotencyIndexCheck, "DROP TABLE users;");
}

// --- mutation without where ---

#[test]
fn test_detects_delete_without_where() {
    assert_detects_violation(
        &MutationWithoutWhereCheck,
        "DELETE FROM users;",
        "DELETE without WHERE",
    );
}

#[test]
fn test_detects_update_without_where() {
    assert_detects_violation(
        &MutationWithoutWhereCheck,
        "UPDATE users SET active = false;",
        "UPDATE without WHERE",
    );
}

#[test]
fn test_allows_delete_with_where() {
    assert_allows(&MutationWithoutWhereCheck, "DELETE FROM users WHERE id = 1;");
}

#[test]
fn test_allows_update_with_where() {
    assert_allows(
        &MutationWithoutWhereCheck,
        "UPDATE users SET active = false WHERE last_login < '2020-01-01';",
    );
}

#[test]
fn mutation_without_where_test_ignores_truncate() {
    assert_allows(&MutationWithoutWhereCheck, "TRUNCATE TABLE users;");
}

#[test]
fn test_ignores_select() {
    assert_allows(&MutationWithoutWhereCheck, "SELECT * FROM users;");
}

#[test]
fn test_ignores_insert() {
    assert_allows(&MutationWithoutWhereCheck, "INSERT INTO users (name) VALUES ('alice');");
}

// --- refresh matview ---

#[test]
fn test_detects_refresh_without_concurrently() {
    assert_detects_violation(
        &RefreshMatViewCheck,
        "REFRESH MATERIALIZED VIEW my_view;",
        "REFRESH MATERIALIZED VIEW without CONCURRENTLY",
    );
}

#[test]
fn test_detects_refresh_without_concurrently_mentions_view_name() {
    assert_detects_violation_containing(
        &RefreshMatViewCheck,
        "REFRESH MATERIALIZED VIEW my_view;",
        "REFRESH MATERIALIZED VIEW without CONCURRENTLY",
        &["my_view"],
    );
}

#[test]
fn test_allows_refresh_with_concurrently_outside_transaction() {
    assert_allows_with_context(
        &RefreshMatViewCheck,
        "REFRESH MATERIALIZED VIEW CONCURRENTLY my_view;",
        MigrationContext {
            run_in_transaction: false,
            ..MigrationContext::default()
        },
    );
}

#[test]
fn refresh_matview_test_detects_concurrent_in_transaction() {
    assert_detects_violation_with_context(
        &RefreshMatViewCheck,
        "REFRESH MATERIALIZED VIEW CONCURRENTLY my_view;",
        "REFRESH MATERIALIZED VIEW CONCURRENTLY inside a transaction",
        MigrationContext {
            run_in_transaction: true,
            ..MigrationContext::default()
        },
    );
}

#[test]
fn refresh_matview_test_allows_concurrent_outside_transaction() {
    assert_allows_with_context(
        &RefreshMatViewCheck,
        "REFRESH MATERIALIZED VIEW CONCURRENTLY my_view;",
        MigrationContext {
            run_in_transaction: false,
            ..MigrationContext::default()
        },
    );
}

#[test]
fn refresh_matview_test_ignores_other_statements() {
    let stmt = parse_sql("CREATE TABLE users (id SERIAL PRIMARY KEY);");
    let violations =
        RefreshMatViewCheck.check(&stmt, &Config::default(), &MigrationContext::default());
    assert_eq!(violations.len(), 0);
}

#[test]
fn refresh_matview_test_safe_alternative_includes_transaction_hint_when_in_transaction() {
    let stmt = parse_sql("REFRESH MATERIALIZED VIEW my_view;");
    let violations = RefreshMatViewCheck.check(
        &stmt,
        &Config::default(),
        &MigrationContext {
            run_in_transaction: true,
            no_transaction_hint: "Create `metadata.toml` with `run_in_transaction = false`.",
            ..MigrationContext::default()
        },
    );
    assert_eq!(violations.len(), 1);
    assert!(
        violations[0]
            .safe_alternative
            .contains("Create `metadata.toml` with `run_in_transaction = false`."),
        "Expected transaction hint in safe_alternative"
    );
    assert!(
        violations[0]
            .safe_alternative
            .contains("CONCURRENTLY cannot run inside a transaction block"),
        "Expected transaction note in safe_alternative"
    );
}

#[test]
fn refresh_matview_test_safe_alternative_omits_transaction_hint_when_outside_transaction() {
    let stmt = parse_sql("REFRESH MATERIALIZED VIEW my_view;");
    let violations = RefreshMatViewCheck.check(
        &stmt,
        &Config::default(),
        &MigrationContext {
            run_in_transaction: false,
            no_transaction_hint: "Create `metadata.toml` with `run_in_transaction = false`.",
            ..MigrationContext::default()
        },
    );
    assert_eq!(violations.len(), 1);
    assert!(
        !violations[0]
            .safe_alternative
            .contains("Create `metadata.toml` with `run_in_transaction = false`."),
        "Expected no transaction hint in safe_alternative"
    );
}

#[test]
fn refresh_matview_test_sqlx_framework_safe_alternative_message() {
    let stmt = parse_sql("REFRESH MATERIALIZED VIEW CONCURRENTLY my_view;");
    let violations = RefreshMatViewCheck.check(
        &stmt,
        &Config::default(),
        &MigrationContext {
            run_in_transaction: true,
            no_transaction_hint: "Add `-- no-transaction` as the first line of the migration file.",
            ..MigrationContext::default()
        },
    );
    assert_eq!(violations.len(), 1);
    assert!(
        violations[0].safe_alternative.contains("-- no-transaction"),
        "Expected SQLx safe alternative message"
    );
}

#[test]
fn refresh_matview_test_diesel_framework_safe_alternative_message() {
    let stmt = parse_sql("REFRESH MATERIALIZED VIEW CONCURRENTLY my_view;");
    let violations = RefreshMatViewCheck.check(
        &stmt,
        &Config::default(),
        &MigrationContext {
            run_in_transaction: true,
            no_transaction_hint: "Create `metadata.toml` in the migration directory with `run_in_transaction = false`.",
            ..MigrationContext::default()
        },
    );
    assert_eq!(violations.len(), 1);
    assert!(
        violations[0].safe_alternative.contains("metadata.toml"),
        "Expected Diesel safe alternative message"
    );
}

// --- reindex ---

#[test]
fn test_detects_reindex_index() {
    assert_detects_violation(
        &ReindexCheck,
        "REINDEX INDEX idx_users_email;",
        "REINDEX without CONCURRENTLY",
    );
}

#[test]
fn test_detects_reindex_table() {
    assert_detects_violation(
        &ReindexCheck,
        "REINDEX TABLE users;",
        "REINDEX without CONCURRENTLY",
    );
}

#[test]
fn test_detects_reindex_schema() {
    assert_detects_violation(
        &ReindexCheck,
        "REINDEX SCHEMA public;",
        "REINDEX without CONCURRENTLY",
    );
}

#[test]
fn test_detects_reindex_database() {
    assert_detects_violation(
        &ReindexCheck,
        "REINDEX DATABASE mydb;",
        "REINDEX without CONCURRENTLY",
    );
}

#[test]
fn test_allows_reindex_index_concurrently_outside_transaction() {
    assert_allows_with_context(
        &ReindexCheck,
        "REINDEX INDEX CONCURRENTLY idx_users_email;",
        MigrationContext {
            run_in_transaction: false,
            ..MigrationContext::default()
        },
    );
}

#[test]
fn test_allows_reindex_table_concurrently_outside_transaction() {
    assert_allows_with_context(
        &ReindexCheck,
        "REINDEX TABLE CONCURRENTLY users;",
        MigrationContext {
            run_in_transaction: false,
            ..MigrationContext::default()
        },
    );
}

#[test]
fn reindex_test_detects_concurrent_in_transaction() {
    assert_detects_violation_with_context(
        &ReindexCheck,
        "REINDEX INDEX CONCURRENTLY idx_users_email;",
        "REINDEX CONCURRENTLY inside a transaction",
        MigrationContext {
            run_in_transaction: true,
            ..MigrationContext::default()
        },
    );
}

#[test]
fn reindex_test_allows_concurrent_outside_transaction() {
    assert_allows_with_context(
        &ReindexCheck,
        "REINDEX INDEX CONCURRENTLY idx_users_email;",
        MigrationContext {
            run_in_transaction: false,
            ..MigrationContext::default()
        },
    );
}

#[test]
fn test_reindex_violation_contains_target_name() {
    assert_detects_violation_containing(
        &ReindexCheck,
        "REINDEX INDEX idx_users_email;",
        "REINDEX without CONCURRENTLY",
        &["idx_users_email", "INDEX"],
    );
}

#[test]
fn test_reindex_table_violation_contains_table_name() {
    assert_detects_violation_containing(
        &ReindexCheck,
        "REINDEX TABLE users;",
        "REINDEX without CONCURRENTLY",
        &["users", "TABLE"],
    );
}

#[test]
fn reindex_test_safe_alternative_includes_transaction_hint_when_in_transaction() {
    let stmt = parse_sql("REINDEX INDEX idx_users_email;");
    let violations = ReindexCheck.check(
        &stmt,
        &Config::default(),
        &MigrationContext {
            run_in_transaction: true,
            no_transaction_hint: "Create `metadata.toml` with `run_in_transaction = false`.",
            ..MigrationContext::default()
        },
    );
    assert_eq!(violations.len(), 1);
    assert!(
        violations[0]
            .safe_alternative
            .contains("Create `metadata.toml` with `run_in_transaction = false`."),
        "Expected transaction hint in safe_alternative"
    );
    assert!(
        violations[0]
            .safe_alternative
            .contains("CONCURRENTLY cannot run inside a transaction block"),
        "Expected transaction note in safe_alternative"
    );
}

#[test]
fn reindex_test_safe_alternative_omits_transaction_hint_when_outside_transaction() {
    let stmt = parse_sql("REINDEX INDEX idx_users_email;");
    let violations = ReindexCheck.check(
        &stmt,
        &Config::default(),
        &MigrationContext {
            run_in_transaction: false,
            no_transaction_hint: "Create `metadata.toml` with `run_in_transaction = false`.",
            ..MigrationContext::default()
        },
    );
    assert_eq!(violations.len(), 1);
    assert!(
        !violations[0]
            .safe_alternative
            .contains("Create `metadata.toml` with `run_in_transaction = false`."),
        "Expected no transaction hint in safe_alternative"
    );
}

#[test]
fn reindex_test_ignores_other_statements() {
    let ctx = MigrationContext::default();
    let config = Config::default();

    let stmt = parse_sql("CREATE INDEX idx_test ON users(email);");
    assert_eq!(ReindexCheck.check(&stmt, &config, &ctx).len(), 0);

    let stmt = parse_sql("DROP INDEX idx_test;");
    assert_eq!(ReindexCheck.check(&stmt, &config, &ctx).len(), 0);

    let stmt = parse_sql("ALTER TABLE users ADD COLUMN email TEXT;");
    assert_eq!(ReindexCheck.check(&stmt, &config, &ctx).len(), 0);
}

#[test]
fn reindex_test_sqlx_framework_safe_alternative_message() {
    let stmt = parse_sql("REINDEX INDEX CONCURRENTLY idx_users_email;");
    let violations = ReindexCheck.check(
        &stmt,
        &Config::default(),
        &MigrationContext {
            run_in_transaction: true,
            no_transaction_hint: "Add `-- no-transaction` as the first line of the migration file.",
            ..MigrationContext::default()
        },
    );
    assert_eq!(violations.len(), 1);
    assert!(
        violations[0].safe_alternative.contains("-- no-transaction"),
        "Expected SQLx safe alternative message"
    );
}

#[test]
fn reindex_test_diesel_framework_safe_alternative_message() {
    let stmt = parse_sql("REINDEX INDEX CONCURRENTLY idx_users_email;");
    let violations = ReindexCheck.check(
        &stmt,
        &Config::default(),
        &MigrationContext {
            run_in_transaction: true,
            no_transaction_hint: "Create `metadata.toml` in the migration directory with `run_in_transaction = false`.",
            ..MigrationContext::default()
        },
    );
    assert_eq!(violations.len(), 1);
    assert!(
        violations[0].safe_alternative.contains("metadata.toml"),
        "Expected Diesel safe alternative message"
    );
}

#[test]
fn test_ignores_reindex_system() {
    // REINDEX SYSTEM doesn't support CONCURRENTLY, so the check skips it entirely.
    assert_allows(&ReindexCheck, "REINDEX SYSTEM mydb;");
}

// --- rename column ---

#[test]
fn test_detects_rename_column() {
    assert_detects_violation(
        &RenameColumnCheck,
        "ALTER TABLE users RENAME COLUMN email TO email_address;",
        "RENAME COLUMN",
    );
}

#[test]
fn test_detects_rename_column_with_schema() {
    assert_detects_violation(
        &RenameColumnCheck,
        "ALTER TABLE public.users RENAME COLUMN old_name TO new_name;",
        "RENAME COLUMN",
    );
}

#[test]
fn rename_column_test_ignores_other_alter_operations() {
    assert_allows(&RenameColumnCheck, "ALTER TABLE users ADD COLUMN email VARCHAR(255);");
}

#[test]
fn test_ignores_rename_table() {
    assert_allows(&RenameColumnCheck, "ALTER TABLE users RENAME TO customers;");
}

#[test]
fn rename_column_test_ignores_other_statements() {
    assert_allows(&RenameColumnCheck, "CREATE TABLE users (id SERIAL PRIMARY KEY);");
}

// --- truncate table ---

#[test]
fn test_detects_truncate_table() {
    assert_detects_violation(&TruncateTableCheck, "TRUNCATE TABLE users;", "TRUNCATE TABLE");
}

#[test]
fn test_detects_truncate_multiple_tables() {
    assert_detects_n_violations(
        &TruncateTableCheck,
        "TRUNCATE TABLE users, orders;",
        2,
        "TRUNCATE TABLE",
    );
}

#[test]
fn test_detects_truncate_with_cascade() {
    assert_detects_violation(
        &TruncateTableCheck,
        "TRUNCATE TABLE users CASCADE;",
        "TRUNCATE TABLE",
    );
}

#[test]
fn test_ignores_delete_statement() {
    assert_allows(&TruncateTableCheck, "DELETE FROM users;");
}

#[test]
fn truncate_table_test_ignores_drop_table() {
    assert_allows(&TruncateTableCheck, "DROP TABLE users;");
}

// --- unnamed constraint ---

#[test]
fn test_detects_unnamed_unique_constraint() {
    assert_detects_violation(
        &UnnamedConstraintCheck,
        "ALTER TABLE users ADD UNIQUE (email);",
        "CONSTRAINT without name",
    );
}

#[test]
fn test_detects_unnamed_foreign_key_constraint() {
    assert_detects_violation(
        &UnnamedConstraintCheck,
        "ALTER TABLE posts ADD FOREIGN KEY (user_id) REFERENCES users(id);",
        "CONSTRAINT without name",
    );
}

#[test]
fn test_detects_unnamed_check_constraint() {
    assert_detects_violation(
        &UnnamedConstraintCheck,
        "ALTER TABLE users ADD CHECK (age >= 0);",
        "CONSTRAINT without name",
    );
}

#[test]
fn test_allows_named_unique_constraint() {
    assert_allows(
        &UnnamedConstraintCheck,
        "ALTER TABLE users ADD CONSTRAINT users_email_key UNIQUE (email);",
    );
}

#[test]
fn test_allows_named_foreign_key_constraint() {
    assert_allows(
        &UnnamedConstraintCheck,
        "ALTER TABLE posts ADD CONSTRAINT posts_user_id_fkey FOREIGN KEY (user_id) REFERENCES users(id);",
    );
}

#[test]
fn test_allows_named_check_constraint() {
    assert_allows(
        &UnnamedConstraintCheck,
        "ALTER TABLE users ADD CONSTRAINT users_age_check CHECK (age >= 0);",
    );
}

#[test]
fn unnamed_constraint_test_ignores_other_alter_operations() {
    assert_allows(&UnnamedConstraintCheck, "ALTER TABLE users ADD COLUMN email TEXT;");
}

#[test]
fn unnamed_constraint_test_ignores_other_statements() {
    assert_allows(&UnnamedConstraintCheck, "CREATE TABLE users (id SERIAL PRIMARY KEY);");
}

// --- wide index ---

#[test]
fn test_detects_index_with_four_columns() {
    assert_detects_violation(
        &WideIndexCheck,
        "CREATE INDEX idx_users_composite ON users(a, b, c, d);",
        "CREATE INDEX with too many columns",
    );
}

#[test]
fn test_detects_index_with_five_columns() {
    assert_detects_violation(
        &WideIndexCheck,
        "CREATE INDEX idx_users_composite ON users(a, b, c, d, e);",
        "CREATE INDEX with too many columns",
    );
}

#[test]
fn test_detects_unique_index_with_four_columns() {
    assert_detects_violation(
        &WideIndexCheck,
        "CREATE UNIQUE INDEX idx_users_composite ON users(tenant_id, user_id, email, status);",
        "CREATE INDEX with too many columns",
    );
}

#[test]
fn test_allows_index_with_one_column() {
    assert_allows(&WideIndexCheck, "CREATE INDEX idx_users_email ON users(email);");
}

#[test]
fn test_allows_index_with_two_columns() {
    assert_allows(
        &WideIndexCheck,
        "CREATE INDEX idx_users_composite ON users(tenant_id, user_id);",
    );
}

#[test]
fn test_allows_index_with_three_columns() {
    assert_allows(
        &WideIndexCheck,
        "CREATE INDEX idx_users_composite ON users(email, name, status);",
    );
}

#[test]
fn wide_index_test_ignores_other_statements() {
    assert_allows(&WideIndexCheck, "CREATE TABLE users (id SERIAL PRIMARY KEY);");
}

#[test]
fn test_detects_unnamed_wide_index() {
    assert_detects_violation_containing(
        &WideIndexCheck,
        "CREATE INDEX ON users(a, b, c, d);",
        "CREATE INDEX with too many columns",
        &["<unnamed>"],
    );
}

#[test]
fn test_detects_expression_wide_index() {
    assert_detects_violation_containing(
        &WideIndexCheck,
        "CREATE INDEX idx ON users(UPPER(email), b, c, d);",
        "CREATE INDEX with too many columns",
        &["<expr>"],
    );
}

// --- registry ---

fn registry_with_enabled_checks(checks: &[&str]) -> (Config, Registry) {
    let config = Config {
        enable_checks: checks.iter().map(|check| (*check).to_string()).collect(),
        ..Default::default()
    };
    let registry = Registry::with_config(&config);
    (config, registry)
}

fn check_sql_violations(sql: &str) -> ViolationList {
    let (config, registry) = registry_with_enabled_checks(&["DropColumnCheck"]);
    let result = parse(sql).unwrap();
    registry.check_stmts_with_context(
        &result.stmts,
        sql,
        &result.token_starts,
        &[],
        &config,
        &MigrationContext::default(),
    )
}

#[test]
fn test_registry_creation() {
    let registry = Registry::new();
    assert_eq!(registry.checks.len(), Registry::builtin_check_names().len());
}

#[test]
fn test_registry_includes_all_checks_when_no_version_set() {
    let registry = Registry::new();
    assert!(registry.active_check_names().contains(&"AddColumnCheck"));
    assert_eq!(registry.checks.len(), Registry::builtin_check_names().len());
}

#[test]
fn test_registry_exposes_split_idempotency_check_names() {
    let registry = Registry::new();
    let active = registry.active_check_names();

    assert!(active.contains(&"IdempotencyAlterCheck"));
    assert!(active.contains(&"IdempotencyCreateCheck"));
    assert!(active.contains(&"IdempotencyDropCheck"));
    assert!(active.contains(&"IdempotencyIndexCheck"));
    assert!(!active.contains(&"IdempotencyCheck"));
}

#[test]
fn test_registry_with_disabled_checks() {
    let config = Config {
        disable_checks: vec!["AddColumnCheck".to_string()],
        ..Default::default()
    };

    let registry = Registry::with_config(&config);
    assert_eq!(
        registry.checks.len(),
        Registry::builtin_check_names().len() - 1
    );
}

#[test]
fn test_registry_with_multiple_disabled_checks() {
    let config = Config {
        disable_checks: vec!["AddColumnCheck".to_string(), "DropColumnCheck".to_string()],
        ..Default::default()
    };

    let registry = Registry::with_config(&config);
    assert_eq!(
        registry.checks.len(),
        Registry::builtin_check_names().len() - 2
    );
}

#[test]
fn test_registry_with_all_checks_disabled() {
    let config = Config {
        disable_checks: Registry::builtin_check_names().to_vec(),
        ..Default::default()
    };

    let registry = Registry::with_config(&config);
    assert_eq!(registry.checks.len(), 0);
}

#[test]
fn test_check_with_safety_assured_block() {
    let (config, registry) = registry_with_enabled_checks(&["DropColumnCheck"]);
    let sql = r"
-- safety-assured:start
ALTER TABLE users DROP COLUMN email;
-- safety-assured:end
    ";

    let result = parse(sql).unwrap();
    let ignore_ranges = vec![IgnoreRange {
        start_line: 2,
        end_line: 4,
    }];

    let violations = registry.check_stmts_with_context(
        &result.stmts,
        sql,
        &result.token_starts,
        &ignore_ranges,
        &config,
        &MigrationContext::default(),
    );
    assert_eq!(violations.len(), 0);
}

#[test]
fn test_check_without_safety_assured_block() {
    let (config, registry) = registry_with_enabled_checks(&["DropColumnCheck"]);
    let sql = "ALTER TABLE users DROP COLUMN email;";

    let result = parse(sql).unwrap();
    let ignore_ranges = vec![];

    let violations = registry.check_stmts_with_context(
        &result.stmts,
        sql,
        &result.token_starts,
        &ignore_ranges,
        &config,
        &MigrationContext::default(),
    );
    assert_eq!(violations.len(), 1);
}

#[test]
fn test_violation_line_number_on_line_1() {
    let violations = check_sql_violations("ALTER TABLE users DROP COLUMN email;");
    assert_eq!(violations.len(), 1);
    assert_eq!(violations[0].0, 1);
}

#[test]
fn test_violation_line_number_preceded_by_blank_lines() {
    // stmt_location may point to byte 0 (before the newlines); the scanner
    // must advance past whitespace to the ALTER keyword on line 3.
    let violations = check_sql_violations("\n\nALTER TABLE users DROP COLUMN email;");
    assert_eq!(violations.len(), 1);
    assert_eq!(violations[0].0, 3);
}

#[test]
fn test_violation_line_number_preceded_by_line_comment() {
    let violations =
        check_sql_violations("-- migration comment\nALTER TABLE users DROP COLUMN email;");
    assert_eq!(violations.len(), 1);
    assert_eq!(violations[0].0, 2);
}

#[test]
fn test_violation_line_number_preceded_by_block_comment() {
    let violations =
        check_sql_violations("/* block comment */\nALTER TABLE users DROP COLUMN email;");
    assert_eq!(violations.len(), 1);
    assert_eq!(violations[0].0, 2);
}

#[test]
fn test_violation_line_number_preceded_by_multiline_block_comment() {
    let violations =
        check_sql_violations("/*\n * file header\n */\nALTER TABLE users DROP COLUMN email;");
    assert_eq!(violations.len(), 1);
    assert_eq!(violations[0].0, 4);
}

#[test]
fn test_violation_line_number_second_stmt_on_same_line() {
    // Both statements are on line 1; the violation from the second should
    // still report line 1, not 0 or 2.
    let violations = check_sql_violations("SELECT 1; ALTER TABLE users DROP COLUMN email;");
    assert_eq!(violations.len(), 1);
    assert_eq!(violations[0].0, 1);
}

#[test]
fn test_violation_line_number_stmt_inside_safety_assured_suppressed() {
    let (config, registry) = registry_with_enabled_checks(&["DropColumnCheck"]);
    let sql = "-- safety-assured:start\nALTER TABLE users DROP COLUMN email;\n-- safety-assured:end\nALTER TABLE posts DROP COLUMN body;";
    let result = parse(sql).unwrap();
    let ignore_ranges = vec![IgnoreRange {
        start_line: 1,
        end_line: 3,
    }];
    let violations = registry.check_stmts_with_context(
        &result.stmts,
        sql,
        &result.token_starts,
        &ignore_ranges,
        &config,
        &MigrationContext::default(),
    );
    assert_eq!(violations.len(), 1);
    assert_eq!(violations[0].0, 4);
}

#[test]
fn test_violation_line_number_stmt_after_safety_assured_end_not_suppressed() {
    let (config, registry) = registry_with_enabled_checks(&["DropColumnCheck"]);
    // Statement is on line 4, one line after the block ends.
    let sql = "-- safety-assured:start\nALTER TABLE users DROP COLUMN email;\n-- safety-assured:end\nALTER TABLE posts DROP COLUMN body;";
    let result = parse(sql).unwrap();
    let ignore_ranges = vec![IgnoreRange {
        start_line: 1,
        end_line: 3,
    }];
    let violations = registry.check_stmts_with_context(
        &result.stmts,
        sql,
        &result.token_starts,
        &ignore_ranges,
        &config,
        &MigrationContext::default(),
    );
    assert_eq!(violations[0].0, 4);
}

#[test]
fn test_violation_line_number_after_unicode_comment() {
    // Accented characters are multi-byte in UTF-8; byte_offset_to_line counts
    // newlines by byte so the line number must still be correct.
    let violations =
        check_sql_violations("-- Ünïcödé comment\nALTER TABLE users DROP COLUMN email;");
    assert_eq!(violations.len(), 1);
    assert_eq!(violations[0].0, 2);
}

#[test]
fn test_byte_offset_to_line() {
    let sql = "line1\nline2\nline3";
    assert_eq!(byte_offset_to_line(sql, 0), 1);
    assert_eq!(byte_offset_to_line(sql, 5), 1); // at '\n'
    assert_eq!(byte_offset_to_line(sql, 6), 2); // start of line2
    assert_eq!(byte_offset_to_line(sql, 12), 3); // start of line3
}

#[test]
fn test_first_token_at_or_after_skips_comments() {
    let sql = "/* outer /* inner */ still outer */ SELECT 1;";
    let tokens = parse(sql).unwrap().token_starts;
    let offset = first_token_at_or_after(&tokens, 0);
    assert_eq!(&sql[offset..offset + 6], "SELECT");
}

#[test]
fn test_first_token_at_or_after_empty_token_list() {
    // non_comment_token_starts returns [] when pg_query::scan fails.
    // The fallback must return the original offset unchanged.
    assert_eq!(first_token_at_or_after(&[], 5), 5);
}

#[test]
fn test_first_token_at_or_after_offset_past_all_tokens() {
    // When the offset is beyond the last token the fallback must kick in.
    assert_eq!(first_token_at_or_after(&[0, 7, 14], 20), 20);
}

// --- safety checker ---

fn line_number_checker() -> SafetyChecker {
    SafetyChecker::with_config(Config {
        enable_checks: vec!["DropColumnCheck".to_string()],
        ..Default::default()
    })
    .unwrap()
}

fn violation_lines(checker: &SafetyChecker, sql: &str) -> Vec<usize> {
    let mut lines: Vec<usize> =
        checker.check_sql(sql, parse(sql)).unwrap().violations.iter().map(|(l, _)| *l).collect();
    lines.sort_unstable();
    lines
}

#[test]
fn test_check_safe_sql() {
    let checker = SafetyChecker::with_config(Config {
        enable_checks: vec!["AddColumnCheck".to_string()],
        ..Default::default()
    })
    .unwrap();
    let sql = "ALTER TABLE users ADD COLUMN email VARCHAR(255);";
    let violations = checker.check_sql(sql, parse(sql)).unwrap().violations;
    assert_eq!(violations.len(), 0);
}

#[test]
fn test_check_unsafe_sql() {
    let checker = SafetyChecker::with_config(Config {
        enable_checks: vec!["AddColumnCheck".to_string()],
        ..Default::default()
    })
    .unwrap();
    let sql = "ALTER TABLE users ADD COLUMN admin BOOLEAN DEFAULT FALSE;";
    let violations = checker.check_sql(sql, parse(sql)).unwrap().violations;
    assert_eq!(violations.len(), 1);
}

#[test]
fn test_with_disabled_checks() {
    let config = Config {
        disable_checks: vec!["AddColumnCheck".to_string()],
        ..Default::default()
    };
    let checker = SafetyChecker::with_config(config).unwrap();

    let sql = "ALTER TABLE users ADD COLUMN admin BOOLEAN DEFAULT FALSE;";
    let violations = checker.check_sql(sql, parse(sql)).unwrap().violations;
    assert!(
        !violations
            .iter()
            .any(|(_, violation)| violation.operation == "ADD COLUMN with DEFAULT"),
        "AddColumnCheck should be disabled"
    );
}

#[test]
fn test_reindex_without_concurrently_detected() {
    let checker = SafetyChecker::default();
    let sql = "REINDEX INDEX idx_users_email;";
    let violations = checker.check_sql(sql, parse(sql)).unwrap().violations;
    assert_eq!(violations.len(), 1);
    assert_eq!(violations[0].1.operation, "REINDEX without CONCURRENTLY");
}

#[test]
fn test_reindex_table_without_concurrently_detected() {
    let checker = SafetyChecker::default();
    let sql = "REINDEX TABLE users;";
    let violations = checker.check_sql(sql, parse(sql)).unwrap().violations;
    assert_eq!(violations.len(), 1);
    assert_eq!(violations[0].1.operation, "REINDEX without CONCURRENTLY");
}

#[test]
fn test_reindex_concurrently_in_transaction_detected() {
    // check_sql uses MigrationContext::default() (run_in_transaction=true),
    // so REINDEX CONCURRENTLY is flagged as requiring no-transaction context.
    let checker = SafetyChecker::default();
    let sql = "REINDEX INDEX CONCURRENTLY idx_users_email;";
    let violations = checker.check_sql(sql, parse(sql)).unwrap().violations;
    assert_eq!(violations.len(), 1);
    assert_eq!(
        violations[0].1.operation,
        "REINDEX CONCURRENTLY inside a transaction"
    );
}

#[test]
fn test_reindex_check_can_be_disabled() {
    let config = Config {
        disable_checks: vec!["ReindexCheck".to_string()],
        ..Default::default()
    };
    let checker = SafetyChecker::with_config(config).unwrap();

    let sql = "REINDEX INDEX idx_users_email;";
    let violations = checker.check_sql(sql, parse(sql)).unwrap().violations;
    assert_eq!(violations.len(), 0);
}

#[test]
fn test_multiple_reindex_violations() {
    let checker = SafetyChecker::default();
    let sql = r"
        REINDEX INDEX idx_users_email;
        REINDEX TABLE posts;
    ";
    let violations = checker.check_sql(sql, parse(sql)).unwrap().violations;
    assert_eq!(violations.len(), 2);
}

#[test]
fn test_buffer_input_safe_sql() {
    let checker = SafetyChecker::with_config(Config {
        enable_checks: vec!["AddColumnCheck".to_string()],
        ..Default::default()
    })
    .unwrap();
    let input_data = "ALTER TABLE users ADD COLUMN foo TEXT;";
    let violations = checker.check_sql(input_data, parse(input_data)).unwrap().violations;
    assert_eq!(violations.len(), 0);
}

#[test]
fn test_buffer_input_unsafe_sql() {
    let checker = SafetyChecker::with_config(Config {
        enable_checks: vec!["AddColumnCheck".to_string()],
        ..Default::default()
    })
    .unwrap();
    let input_data = "ALTER TABLE users ADD COLUMN admin BOOLEAN DEFAULT FALSE;";
    let violations = checker.check_sql(input_data, parse(input_data)).unwrap().violations;
    assert_eq!(violations.len(), 1);
}

#[test]
fn test_unknown_check_name_in_enable_checks_errors() {
    let result = SafetyChecker::with_config(Config {
        enable_checks: vec!["NonExistentCheck".to_string()],
        ..Default::default()
    });
    assert_eq!(
        result.err().unwrap().message(),
        "Invalid check name: NonExistentCheck"
    );
}

#[test]
fn test_unknown_check_name_in_disable_checks_errors() {
    let result = SafetyChecker::with_config(Config {
        disable_checks: vec!["NonExistentCheck".to_string()],
        ..Default::default()
    });
    assert_eq!(
        result.err().unwrap().message(),
        "Invalid check name: NonExistentCheck"
    );
}

#[test]
fn test_unknown_check_name_in_warn_checks_errors() {
    let result = SafetyChecker::with_config(Config {
        warn_checks: vec!["NonExistentCheck".to_string()],
        ..Default::default()
    });
    assert_eq!(
        result.err().unwrap().message(),
        "Invalid check name: NonExistentCheck"
    );
}

#[test]
fn test_buffer_empty_string() {
    let checker = SafetyChecker::default();
    let input_data = "";
    let violations = checker.check_sql(input_data, parse(input_data)).unwrap().violations;
    assert_eq!(violations.len(), 0);
}

#[test]
fn test_buffer_input_multiple_lines() {
    let checker = SafetyChecker::default();
    let input_data = r"
        REINDEX INDEX idx_users_email;
        REINDEX TABLE posts;
    ";
    let violations = checker.check_sql(input_data, parse(input_data)).unwrap().violations;
    assert_eq!(violations.len(), 2);
}

#[test]
fn test_line_numbers_two_stmts_on_sequential_lines() {
    let checker = line_number_checker();
    let sql = "ALTER TABLE users DROP COLUMN email;\nALTER TABLE posts DROP COLUMN body;";
    assert_eq!(violation_lines(&checker, sql), vec![1, 2]);
}

#[test]
fn test_line_numbers_stmts_separated_by_blank_line() {
    let checker = line_number_checker();
    let sql = "ALTER TABLE users DROP COLUMN email;\n\nALTER TABLE posts DROP COLUMN body;";
    assert_eq!(violation_lines(&checker, sql), vec![1, 3]);
}

#[test]
fn test_line_numbers_stmts_with_interleaved_line_comments() {
    let checker = line_number_checker();
    let sql = "-- first op\nALTER TABLE users DROP COLUMN email;\n-- second op\nALTER TABLE posts DROP COLUMN body;";
    assert_eq!(violation_lines(&checker, sql), vec![2, 4]);
}

#[test]
fn test_line_numbers_stmt_just_after_safety_assured_block() {
    let checker = line_number_checker();
    // Lines: 1=start directive, 2=suppressed DROP, 3=end directive, 4=blank, 5=active DROP
    let sql = "-- safety-assured:start\nALTER TABLE users DROP COLUMN email;\n-- safety-assured:end\n\nALTER TABLE posts DROP COLUMN body;";
    assert_eq!(violation_lines(&checker, sql), vec![5]);
}

#[test]
fn test_line_numbers_multiple_violations_from_one_stmt_share_same_line() {
    let checker = line_number_checker();
    // Two DROP COLUMN clauses in one ALTER TABLE on line 3
    let sql = "\n\nALTER TABLE users DROP COLUMN a, DROP COLUMN b;";
    let violations = checker.check_sql(sql, parse(sql)).unwrap().violations;
    assert_eq!(violations.len(), 2);
    assert!(
        violations.iter().all(|(l, _)| *l == 3),
        "Both violations must reference line 3, got {:?}",
        violations.iter().map(|(l, _)| l).collect::<Vec<_>>()
    );
}

#[test]
fn test_registry_returns_inner_registry() {
    let checker = SafetyChecker::default();
    assert_eq!(
        checker.registry().active_check_names().len(),
        Registry::builtin_check_names().len()
    );
}

#[test]
fn test_default_creates_checker() {
    let checker = SafetyChecker::default();
    assert!(!checker.registry().active_check_names().is_empty());
}

#[test]
fn test_check_sql_warns_on_duplicate_migration_disabled_checks() {
    let checker = SafetyChecker::default();
    // Duplicate name in disable directive — warn_unknown_migration_disabled_checks deduplicates.
    let sql = "-- diesel-guard:disable AddColumnCheck,AddColumnCheck\nALTER TABLE t ADD COLUMN x TEXT;";
    // Should not panic or error; just runs (warning goes to stderr).
    let _ = checker.check_sql(sql, parse(sql)).unwrap().violations;
}

#[test]
fn test_check_sql_warns_on_unknown_migration_disabled_check() {
    let checker = SafetyChecker::default();
    // FakeCheck is not a known check name — triggers the eprintln warning path.
    let sql =
        "-- diesel-guard:disable FakeCheckThatDoesNotExist\nALTER TABLE t ADD COLUMN x TEXT;";
    let _ = checker.check_sql(sql, parse(sql)).unwrap().violations;
}

#[test]
fn test_unknown_framework_returns_error() {
    let config = Config {
        framework: "unknown".to_string(),
        ..Default::default()
    };
    let checker = SafetyChecker::with_config(config).unwrap();
    assert_eq!(
        checker.adapter().unwrap_err().message(),
        "Invalid framework \"unknown\". Expected \"diesel\" or \"sqlx\"."
    );
    assert_eq!(SafetyChecker::default().adapter().unwrap(), Framework::Diesel);
    let sqlx = Config { framework: "sqlx".to_string(), ..Config::default() };
    assert_eq!(SafetyChecker::with_config(sqlx).unwrap().adapter().unwrap(), Framework::Sqlx);
}

fn custom(name: &str, error: Option<&str>) -> CustomChecks {
    CustomChecks {
        names: vec![name.to_string()],
        checks: vec![],
        errors: error
            .map(|message| ScriptError {
                stem: Some(name.to_string()),
                message: message.to_string(),
            })
            .into_iter()
            .collect(),
    }
}

fn enabling(name: &str) -> Config {
    Config { enable_checks: vec![name.to_string()], ..Config::default() }
}

#[test]
fn test_enabled_compile_error_custom_check_errors() {
    let custom = custom("broken", Some("Compilation error: line 1"));
    let result = SafetyChecker::with_custom_checks(enabling("broken"), custom);
    assert_eq!(
        result.err().unwrap().message(),
        "Invalid custom check broken: Compilation error: line 1"
    );
}

#[test]
fn test_enabled_custom_check_cannot_shadow_builtin_check() {
    let custom = custom("AddColumnCheck", None);
    let result = SafetyChecker::with_custom_checks(enabling("AddColumnCheck"), custom);
    assert_eq!(
        result.err().unwrap().message(),
        "Invalid custom check AddColumnCheck: custom check name conflicts with a built-in check"
    );
}

#[test]
fn warned_custom_check_that_is_not_loaded_is_an_error() {
    let config = Config { warn_checks: vec!["lost".to_string()], ..Config::default() };
    let result = SafetyChecker::with_custom_checks(config, custom("lost", None));
    assert_eq!(
        result.err().unwrap().message(),
        "Invalid custom check lost: configured custom check was not loaded"
    );
}

#[test]
fn disabled_custom_check_need_not_be_loaded() {
    let config = Config {
        warn_checks: vec!["lost".to_string()],
        disable_checks: vec!["lost".to_string()],
        ..Config::default()
    };
    let checker = SafetyChecker::with_custom_checks(config, custom("lost", None)).unwrap();
    assert!(checker.known_check_names.contains(&"lost".to_string()));
}

#[test]
fn scripts_that_are_not_loaded_are_warned_of() {
    let (_, warnings) = SafetyChecker::with_config_and_warnings(
        Config::default(),
        custom("broken", Some("Compilation error: line 1")),
    )
    .unwrap();
    assert_eq!(warnings, vec!["Compilation error: line 1"]);
}

#[test]
fn custom_checks_run_after_the_built_in_ones() {
    let custom = CustomChecks {
        names: vec!["no_wide_index".to_string()],
        checks: vec![RegisteredCheck::Custom(Box::new(WideIndexCheck))],
        errors: vec![],
    };
    let config = Config {
        enable_checks: vec!["AddIndexCheck".to_string()],
        warn_checks: vec!["WideIndexCheck".to_string()],
        ..Config::default()
    };
    let checker = SafetyChecker::with_custom_checks(config, custom).unwrap();
    let sql = "CREATE INDEX idx ON users(a, b, c, d);";
    let violations = checker.check_sql(sql, parse(sql)).unwrap().violations;
    let names: Vec<&str> = violations.iter().map(|(_, v)| v.check_name.as_str()).collect();
    assert_eq!(names, vec!["AddIndexCheck", "WideIndexCheck"]);
    assert_eq!(violations[0].1.severity, Severity::Error);
    assert_eq!(violations[1].1.severity, Severity::Warning);
}

#[test]
fn disable_directive_applies_to_the_whole_script() {
    let checker = line_number_checker();
    let sql = "ALTER TABLE users DROP COLUMN a;\n-- diesel-guard:disable DropColumnCheck";
    assert!(violation_lines(&checker, sql).is_empty());
}

#[test]
fn unknown_names_in_directives_are_warned_of_once() {
    let checker = SafetyChecker::default();
    let sql = "-- diesel-guard:disable Fake, Fake, DropTableCheck\nSELECT 1;";
    let checked = checker.check_sql(sql, parse(sql)).unwrap();
    assert_eq!(
        checked.warnings,
        vec![
            "Warning: Unknown check name 'Fake' in migration-scoped disable_checks. Run list-checks to see available checks."
        ]
    );
}

#[test]
fn unbalanced_directives_are_an_error() {
    let checker = SafetyChecker::default();
    let sql = "-- safety-assured:start\nSELECT 1;";
    let err = checker.check_sql(sql, parse(sql)).unwrap_err();
    assert!(err.message().contains("Unclosed 'safety-assured:start' at line 1"));
}

#[test]
fn test_check_file_parse_error_points_to_failing_statement_line() {
    let sql = "CREATE TABLE a ();\nCREATE TABLE b ();\nCREATE TABLE @bad;";
    let checker = SafetyChecker::default();
    let ctx = MigrationContext::default();
    let err = checker.check_file("bad_migration.sql", sql.to_string(), parse(sql), &ctx);
    match err.unwrap_err() {
        DieselGuardError::ParseError { msg, src, span } => {
            assert_eq!(msg, "Invalid statement: syntax error at or near \"@\"");
            assert_eq!(src.unwrap().name, "bad_migration.sql");
            assert_eq!(byte_offset_to_line(sql, span.unwrap().offset), 3);
        }
        other => panic!("expected a parse error, got {other:?}"),
    }
}

fn input(path: &str, sql: &str, run_in_transaction: bool) -> MigrationInput {
    MigrationInput {
        path: path.to_string(),
        sql: Ok(sql.to_string()),
        statements: parse(sql),
        ctx: MigrationContext { run_in_transaction, ..MigrationContext::default() },
    }
}

fn add_index_checker() -> SafetyChecker {
    SafetyChecker::with_config(enabling("AddIndexCheck")).unwrap()
}

#[test]
fn test_diesel_concurrently_without_metadata_toml_is_violation() {
    let sql = "CREATE INDEX CONCURRENTLY idx_users_email ON users(email);";
    let report = add_index_checker().check_directory(vec![input("up.sql", sql, true)]);
    let results = report.results.unwrap();
    let total_violations: usize = results.iter().map(|(_, v)| v.len()).sum();
    assert_eq!(total_violations, 1, "Expected 1 violation (CONCURRENTLY in transaction)");
    assert_eq!(
        results[0].1[0].1.operation,
        "CREATE INDEX CONCURRENTLY inside a transaction"
    );
}

#[test]
fn test_diesel_concurrently_with_metadata_toml_is_safe() {
    let sql = "CREATE INDEX CONCURRENTLY idx_users_email ON users(email);";
    let report = add_index_checker().check_directory(vec![input("up.sql", sql, false)]);
    let results = report.results.unwrap();
    let total_violations: usize = results.iter().map(|(_, v)| v.len()).sum();
    assert_eq!(total_violations, 0, "Expected no violations with metadata.toml");
}

#[test]
fn files_without_violations_are_not_reported() {
    let checker = line_number_checker();
    let report = checker.check_directory(vec![
        input("a.sql", "SELECT 1;", true),
        input("b.sql", "ALTER TABLE users DROP COLUMN a;", true),
        input("c.sql", "-- diesel-guard:disable Fake\nSELECT 1;", true),
    ]);
    let results = report.results.unwrap();
    assert_eq!(results.len(), 1);
    assert_eq!(results[0].0, "b.sql");
    assert_eq!(
        report.warnings,
        vec![
            "Warning: Unknown check name 'Fake' in c.sql migration-scoped disable_checks. Run list-checks to see available checks."
        ]
    );
}

#[test]
fn first_file_that_fails_ends_the_check() {
    let checker = line_number_checker();
    let mut unreadable = input("b.sql", "SELECT 1;", true);
    unreadable.sql = Err(DieselGuardError::IoError("gone".to_string()));
    let report = checker.check_directory(vec![
        input("a.sql", "-- diesel-guard:disable Fake\nSELECT 1;", true),
        unreadable,
        input("c.sql", "CREATE TABLE @bad;", true),
    ]);
    assert!(matches!(report.results, Err(DieselGuardError::IoError(_))));
    assert_eq!(report.warnings.len(), 1);
}

#[test]
fn test_check_path_file_no_violations() {
    let checker = SafetyChecker::with_config(enabling("DropTableCheck")).unwrap();
    let sql = "CREATE TABLE users (id BIGINT);";
    let checked = checker.check_sql(sql, parse(sql)).unwrap();
    assert!(
        single_result("migration.sql", checked.violations).is_empty(),
        "Safe SQL should produce no violations"
    );
}

#[test]
fn test_check_path_file_with_violations() {
    let checker = SafetyChecker::with_config(enabling("DropTableCheck")).unwrap();
    let sql = "DROP TABLE users;";
    let checked = checker.check_sql(sql, parse(sql)).unwrap();
    let results = single_result("migration.sql", checked.violations);
    assert_eq!(results.len(), 1, "Expected one file with violations");
    assert!(results[0].0.contains("migration.sql"));
    assert!(!results[0].1.is_empty());
}

#[test]
fn start_after_must_be_a_timestamp() {
    let listing = MigrationListing::Entries(vec![]);
    let config = Config { start_after: Some("yesterday".to_string()), ..Config::default() };
    let checker = SafetyChecker::with_config(config).unwrap();
    let err = checker.select_diesel_migrations(&listing).unwrap_err();
    assert!(matches!(
        err,
        DieselGuardError::ConfigError(ConfigError::InvalidTimestampFormat(_))
    ));
    let config = Config { start_after: Some("2024-01-01-000000".to_string()), ..Config::default() };
    let checker = SafetyChecker::with_config(config).unwrap();
    assert!(checker.select_diesel_migrations(&listing).unwrap().is_empty());
}

#[test]
fn configuration_selects_the_checks_that_run() {
    let config = Config {
        enable_checks: vec!["DropTableCheck".to_string(), "DropColumnCheck".to_string()],
        disable_checks: vec!["DropColumnCheck".to_string()],
        ..Config::default()
    };
    assert_eq!(Registry::with_config(&config).active_check_names(), vec!["DropTableCheck"]);
}

#[test]
fn added_columns_with_defaults_lock_before_version_11() {
    let sql = "ALTER TABLE users ADD COLUMN admin BOOLEAN DEFAULT FALSE;";
    let node = parse_sql(sql);
    let ctx = MigrationContext::default();
    for (version, count) in [(None, 1), (Some(10), 1), (Some(11), 0), (Some(16), 0)] {
        let config = Config { postgres_version: version, ..Config::default() };
        assert_eq!(AddColumnCheck.check(&node, &config, &ctx).len(), count, "{version:?}");
    }
}

#[test]
fn names_of_the_built_in_checks_are_distinct() {
    let names = Registry::builtin_check_names();
    let distinct: HashSet<&String> = names.iter().collect();
    assert_eq!(distinct.len(), names.len());
}

#[test]
fn primary_keys_are_recognised_by_their_names() {
    for name in ["users_pkey", "USERS_PK", "pk_users", "my_primary_key_2", "usersPrimaryKey"] {
        let sql = format!("ALTER TABLE users DROP CONSTRAINT {name};");
        assert_detects_violation(&DropPrimaryKeyCheck, &sql, "DROP PRIMARY KEY");
    }
    for name in ["users_pkey_old", "backpk", "users_email_key"] {
        assert_allows(
            &DropPrimaryKeyCheck,
            &format!("ALTER TABLE users DROP CONSTRAINT {name};"),
        );
    }
}

#[test]
fn type_names_are_matched_exactly() {
    assert!(is_timestamp_without_tz("timestamp"));
    assert!(!is_timestamp_without_tz("timestamptz"));
    assert!(!is_timestamp_without_tz("TIMESTAMP"));
    for name in ["int2", "int4", "serial", "smallserial"] {
        assert!(is_short_integer(name));
    }
    for name in ["int8", "bigserial", "serial4", ""] {
        assert!(!is_short_integer(name));
    }
}

#[test]
fn identity_columns_are_recognised_by_their_constraint() {
    let mut column = ColumnDef { colname: "id".to_string(), ..ColumnDef::default() };
    assert!(!is_identity_pattern(&column));
    for (contype, expected) in
        [(ConstrType::ConstrNotnull, false), (ConstrType::ConstrIdentity, true)]
    {
        column.constraints.push(NodeEnum::Constraint(Constraint { contype, ..Constraint::default() }));
        assert_eq!(is_identity_pattern(&column), expected);
    }
}

#[test]
fn added_checks_run_after_the_others() {
    let config = Config {
        enable_checks: vec!["DropColumnCheck".to_string()],
        ..Config::default()
    };
    let mut registry = Registry::with_config(&config);
    assert_eq!(registry.active_check_names(), vec!["DropColumnCheck"]);
    registry.add_check(Box::new(WideIndexCheck));
    assert_eq!(registry.active_check_names(), vec!["DropColumnCheck", "WideIndexCheck"]);
}

#[test]
fn a_changed_type_is_no_added_column() {
    let node = parse_sql("ALTER TABLE users ALTER COLUMN age TYPE BIGINT;");
    assert!(for_each_column_def(&node).is_empty());
    for sql in [
        "ALTER TABLE users ALTER COLUMN code TYPE CHAR(10);",
        "ALTER TABLE users ALTER COLUMN data TYPE JSON;",
        "ALTER TABLE users ALTER COLUMN id TYPE SERIAL;",
    ] {
        assert_allows(&CharTypeCheck, sql);
        assert_allows(&AddJsonColumnCheck, sql);
        assert_allows(&AddSerialColumnCheck, sql);
        assert_allows(&GeneratedColumnCheck, sql);
        assert_allows(&AddColumnCheck, sql);
    }
    let node = parse_sql("ALTER TABLE users ADD COLUMN age BIGINT, ALTER COLUMN id TYPE BIGINT;");
    let columns = for_each_column_def(&node);
    assert_eq!(columns.len(), 1);
    assert_eq!((columns[0].0.as_str(), columns[0].1.colname.as_str()), ("users", "age"));
}
