//! The registry of active checks.

use super::builtin::{builtin_checks, Builtin};
use super::pg_helpers::extract_node;
use super::Check;
use crate::adapters::{ContextView, MigrationContext};
use crate::ast::{NodeEnum, RawStmt};
use crate::config::{lists, Config};
use crate::parser::IgnoreRange;
use crate::text::{string_views, views};
use crate::violation::{violation_views, Severity, Violation, ViolationView};
use crate::ViolationList;
use vstd::prelude::*;
use vstd::utf8::encode_utf8;

verus! {

/// A check of a registry: a built-in one, or one that was added.
pub enum RegisteredCheck {
    Builtin(Builtin),
    Custom(Box<dyn Check>),
}

impl RegisteredCheck {
    /// The name of the check.
    pub open spec fn title(self) -> Seq<char> {
        match self {
            RegisteredCheck::Builtin(check) => check.title(),
            RegisteredCheck::Custom(check) => check.title(),
        }
    }

    /// What the check reports of a statement.
    pub open spec fn violations(
        self,
        node: NodeEnum,
        config: Config,
        ctx: ContextView,
    ) -> Seq<ViolationView> {
        match self {
            RegisteredCheck::Builtin(check) => check.violations(node, config, ctx),
            RegisteredCheck::Custom(check) => check.violations(node, config, ctx),
        }
    }

    pub fn name(&self) -> (r: &str)
        ensures
            r@ == self.title(),
    {
        match self {
            RegisteredCheck::Builtin(check) => check.name(),
            RegisteredCheck::Custom(check) => check.name(),
        }
    }

    pub fn check(&self, node: &NodeEnum, config: &Config, ctx: &MigrationContext) -> (r: Vec<
        Violation,
    >)
        ensures
            violation_views(r@) == self.violations(*node, *config, ctx@),
    {
        match self {
            RegisteredCheck::Builtin(check) => check.check(node, config, ctx),
            RegisteredCheck::Custom(check) => check.check(node, config, ctx),
        }
    }
}

/// Registry of all available checks
pub struct Registry {
    pub checks: Vec<RegisteredCheck>,
}

/// The built-in check, if the configuration enables it.
pub open spec fn if_enabled(config: Config) -> spec_fn(Builtin) -> Option<RegisteredCheck> {
    |check: Builtin|
        if config.enables(check.title()) {
            Some(RegisteredCheck::Builtin(check))
        } else {
            None
        }
}

/// The built-in checks that a configuration enables, in their order.
pub open spec fn enabled_checks(config: Config) -> Seq<RegisteredCheck> {
    builtin_checks().filter_map(if_enabled(config))
}

/// The names of some checks.
pub open spec fn titles(checks: Seq<RegisteredCheck>) -> Seq<Seq<char>> {
    checks.map_values(|check: RegisteredCheck| check.title())
}

/// The names of the built-in checks.
pub open spec fn builtin_titles() -> Seq<Seq<char>> {
    builtin_checks().map_values(|check: Builtin| check.title())
}

/// The severity of what a check reports.
pub open spec fn severity_of(config: Config, title: Seq<char>) -> Severity {
    if lists(config.warn_checks@, title) {
        Severity::Warning
    } else {
        Severity::Error
    }
}

/// A violation with a severity and the name of a check.
pub open spec fn attribute(severity: Severity, title: Seq<char>) -> spec_fn(
    ViolationView,
) -> ViolationView {
    |v: ViolationView| v.attributed(severity, title)
}

/// What the registry reports of a check on a statement: nothing if the migration disables the check,
/// else what the check reports, with its configured severity and its name.
pub open spec fn report_of(node: NodeEnum, config: Config, ctx: ContextView) -> spec_fn(
    RegisteredCheck,
) -> Seq<ViolationView> {
    |check: RegisteredCheck|
        if ctx.disabled_checks.contains(check.title()) {
            Seq::empty()
        } else {
            check.violations(node, config, ctx).map_values(
                attribute(severity_of(config, check.title()), check.title()),
            )
        }
}

/// What the checks report of a statement, check by check.
pub open spec fn node_violations(
    checks: Seq<RegisteredCheck>,
    node: NodeEnum,
    config: Config,
    ctx: ContextView,
) -> Seq<ViolationView> {
    checks.flat_map(report_of(node, config, ctx))
}

/// The model of a list of violations with their lines.
pub open spec fn list_views(list: Seq<(usize, Violation)>) -> Seq<(usize, ViolationView)> {
    list.map_values(|entry: (usize, Violation)| (entry.0, entry.1@))
}

// ---------------------------------------------------------------------------
// Lines
// ---------------------------------------------------------------------------

/// The number of line feeds among some bytes.
pub open spec fn newlines(bytes: Seq<u8>) -> nat
    decreases bytes.len(),
{
    if bytes.len() == 0 {
        0
    } else {
        newlines(bytes.drop_last()) + (if bytes.last() == 10u8 {
            1nat
        } else {
            0nat
        })
    }
}

/// The line that a byte offset is on, counted from 1. An offset past the end counts as the end, and
/// a line that has no number in a `usize` as the last that has one.
pub open spec fn line_at(bytes: Seq<u8>, offset: int) -> usize {
    let end = if offset <= bytes.len() {
        offset
    } else {
        bytes.len() as int
    };
    let line = newlines(bytes.take(end)) + 1;
    if line <= usize::MAX {
        line as usize
    } else {
        usize::MAX
    }
}

/// Convert a byte offset to a 1-indexed line number.
pub fn byte_offset_to_line(sql: &str, byte_offset: usize) -> (r: usize)
    ensures
        r == line_at(encode_utf8(sql@), byte_offset as int),
{
    let bytes = sql.as_bytes();
    let end: usize = if byte_offset <= bytes.len() {
        byte_offset
    } else {
        bytes.len()
    };
    let mut count: usize = 0;
    let mut i: usize = 0;
    while i < end
        invariant
            i <= end <= bytes@.len(),
            count == newlines(bytes@.take(i as int)),
            count <= i,
        decreases end - i,
    {
        proof {
            assert(bytes@.take(i + 1).drop_last() =~= bytes@.take(i as int));
        }
        if bytes[i] == 10 {
            count += 1;
        }
        i += 1;
    }
    if count < usize::MAX {
        count + 1
    } else {
        usize::MAX
    }
}

/// Whether offsets stand in ascending order.
pub open spec fn sorted(offsets: Seq<usize>) -> bool {
    forall|i: int, j: int| 0 <= i <= j < offsets.len() ==> offsets[i] <= offsets[j]
}

/// The first of the offsets from number `from` on that is not before `offset`; `offset` itself if
/// there is none.
pub open spec fn first_not_before(offsets: Seq<usize>, offset: usize, from: int) -> usize
    decreases offsets.len() - from,
{
    if from < 0 || from >= offsets.len() {
        offset
    } else if offsets[from] >= offset {
        offsets[from]
    } else {
        first_not_before(offsets, offset, from + 1)
    }
}

proof fn lemma_first_not_before(offsets: Seq<usize>, offset: usize, from: int, k: int)
    requires
        0 <= from <= k <= offsets.len(),
        forall|i: int| from <= i < k ==> #[trigger] offsets[i] < offset,
        k < offsets.len() ==> offsets[k] >= offset,
    ensures
        first_not_before(offsets, offset, from) == if k < offsets.len() {
            offsets[k]
        } else {
            offset
        },
    decreases k - from,
{
    if from < k {
        lemma_first_not_before(offsets, offset, from + 1, k);
    }
}

/// First non-comment token position at or after `offset`.
pub fn first_token_at_or_after(token_starts: &[usize], offset: usize) -> (r: usize)
    requires
        sorted(token_starts@),
    ensures
        r == first_not_before(token_starts@, offset, 0),
{
    let mut lo: usize = 0;
    let mut hi: usize = token_starts.len();
    while lo < hi
        invariant
            lo <= hi <= token_starts@.len(),
            sorted(token_starts@),
            forall|i: int| 0 <= i < lo ==> #[trigger] token_starts@[i] < offset,
            forall|i: int| hi <= i < token_starts@.len() ==> #[trigger] token_starts@[i] >= offset,
        decreases hi - lo,
    {
        let mid: usize = lo + (hi - lo) / 2;
        if token_starts[mid] < offset {
            lo = mid + 1;
        } else {
            hi = mid;
        }
    }
    proof {
        lemma_first_not_before(token_starts@, offset, 0, lo as int);
    }
    if lo < token_starts.len() {
        token_starts[lo]
    } else {
        offset
    }
}

/// The byte offset of a statement; 0 where the parser gives none.
pub open spec fn location(stmt: RawStmt) -> usize {
    if stmt.stmt_location < 0 {
        0
    } else {
        stmt.stmt_location as usize
    }
}

/// The line of the first token of a statement.
pub open spec fn statement_line(stmt: RawStmt, sql: Seq<char>, token_starts: Seq<usize>) -> usize {
    line_at(encode_utf8(sql), first_not_before(token_starts, location(stmt), 0) as int)
}

/// Whether a line is inside a safety-assured block.
pub open spec fn is_assured(ranges: Seq<IgnoreRange>, line: usize) -> bool {
    exists|i: int| 0 <= i < ranges.len() && (#[trigger] ranges[i]).covers(line as int)
}

fn line_is_assured(ranges: &[IgnoreRange], line: usize) -> (r: bool)
    ensures
        r == is_assured(ranges@, line),
{
    let mut i: usize = 0;
    while i < ranges.len()
        invariant
            i <= ranges@.len(),
            forall|j: int| 0 <= j < i ==> !(#[trigger] ranges@[j]).covers(line as int),
        decreases ranges@.len() - i,
    {
        if ranges[i].start_line < line && line < ranges[i].end_line {
            assert(ranges@[i as int].covers(line as int));
            return true;
        }
        i += 1;
    }
    false
}

/// A violation with its line.
pub open spec fn on_line(line: usize) -> spec_fn(ViolationView) -> (usize, ViolationView) {
    |v: ViolationView| (line, v)
}

/// What the checks report of a statement of a text, with its line: nothing if the statement starts
/// inside a safety-assured block.
pub open spec fn statement_report(
    checks: Seq<RegisteredCheck>,
    sql: Seq<char>,
    token_starts: Seq<usize>,
    ranges: Seq<IgnoreRange>,
    config: Config,
    ctx: ContextView,
) -> spec_fn(RawStmt) -> Seq<(usize, ViolationView)> {
    |stmt: RawStmt|
        match stmt.stmt {
            Some(node) => {
                let line = statement_line(stmt, sql, token_starts);
                if is_assured(ranges, line) {
                    Seq::empty()
                } else {
                    node_violations(checks, node, config, ctx).map_values(on_line(line))
                }
            },
            None => Seq::empty(),
        }
}

/// What the checks report of the statements of a text, statement by statement.
pub open spec fn script_violations(
    checks: Seq<RegisteredCheck>,
    stmts: Seq<RawStmt>,
    sql: Seq<char>,
    token_starts: Seq<usize>,
    ranges: Seq<IgnoreRange>,
    config: Config,
    ctx: ContextView,
) -> Seq<(usize, ViolationView)> {
    stmts.flat_map(statement_report(checks, sql, token_starts, ranges, config, ctx))
}

impl Registry {
    /// Create registry with all checks enabled (uses default config)
    pub fn new() -> (r: Registry)
        ensures
            r.checks@ == builtin_checks().map_values(|check: Builtin| RegisteredCheck::Builtin(check)),
    {
        let config = Config::default();
        let r = Registry::with_config(&config);
        proof {
            assert(config@.enable_checks.len() == config.enable_checks@.len());
            assert(config@.disable_checks.len() == config.disable_checks@.len());
            lemma_all_enabled(config, builtin_checks());
        }
        r
    }

    /// Create registry with configuration-based filtering
    pub fn with_config(config: &Config) -> (r: Registry)
        ensures
            r.checks@ == enabled_checks(*config),
    {
        let mut registry = Registry { checks: Vec::new() };
        registry.register_enabled_checks(config);
        assert(registry.checks@ =~= enabled_checks(*config));
        registry
    }

    /// Register all enabled checks based on configuration
    fn register_enabled_checks(&mut self, config: &Config)
        ensures
            final(self).checks@ == old(self).checks@ + enabled_checks(*config),
    {
        let all = Self::all_builtin_checks();
        let ghost f = if_enabled(*config);
        let mut i: usize = 0;
        assert(self.checks@ =~= old(self).checks@ + all@.take(0).filter_map(f));
        while i < all.len()
            invariant
                i <= all.len(),
                all@ == builtin_checks(),
                f == if_enabled(*config),
                self.checks@ == old(self).checks@ + all@.take(i as int).filter_map(f),
            decreases all.len() - i,
        {
            let ghost before = self.checks@;
            self.register_check(config, all[i]);
            proof {
                all@.lemma_filter_map_take_succ(f, i as int);
                assert(self.checks@ =~= old(self).checks@ + all@.take(i + 1).filter_map(f));
            }
            i += 1;
        }
        assert(all@.take(all@.len() as int) =~= all@);
    }

    /// The built-in checks, in their order.
    fn all_builtin_checks() -> (r: Vec<Builtin>)
        ensures
            r@ == builtin_checks(),
    {
        let r: Vec<Builtin> = vec![
            Builtin::AddCheckConstraint,
            Builtin::AddColumn,
            Builtin::AddDomainCheckConstraint,
            Builtin::AddExcludeConstraint,
            Builtin::AddForeignKey,
            Builtin::AddIdentityColumn,
            Builtin::AddIndex,
            Builtin::AddJsonColumn,
            Builtin::AddNotNull,
            Builtin::AddPrimaryKey,
            Builtin::AddSerialColumn,
            Builtin::AddUniqueConstraint,
            Builtin::AlterColumnType,
            Builtin::CharType,
            Builtin::CreateExtension,
            Builtin::CreateTableSerial,
            Builtin::CreateTableWithoutPk,
            Builtin::DropColumn,
            Builtin::DropDatabase,
            Builtin::DropIndex,
            Builtin::DropNotNull,
            Builtin::DropPrimaryKey,
            Builtin::DropTable,
            Builtin::GeneratedColumn,
            Builtin::IdempotencyAlter,
            Builtin::IdempotencyCreate,
            Builtin::IdempotencyDrop,
            Builtin::IdempotencyIndex,
            Builtin::MutationWithoutWhere,
            Builtin::RefreshMatView,
            Builtin::Reindex,
            Builtin::RenameColumn,
            Builtin::RenameSchema,
            Builtin::RenameTable,
            Builtin::ShortIntegerPrimaryKey,
            Builtin::TimestampType,
            Builtin::TruncateTable,
            Builtin::UnnamedConstraint,
            Builtin::WideIndex,
        ];
        assert(r@ =~= builtin_checks());
        r
    }

    /// Add a check to the registry.
    pub fn add_check(&mut self, check: Box<dyn Check>)
        ensures
            final(self).checks@ == old(self).checks@.push(RegisteredCheck::Custom(check)),
            titles(final(self).checks@) == titles(old(self).checks@).push(
                RegisteredCheck::Custom(check).title(),
            ),
    {
        self.checks.push(RegisteredCheck::Custom(check));
        proof {
            law_added_checks_come_last(old(self).checks@, RegisteredCheck::Custom(check));
        }
    }

    /// Return the names of all currently active checks (built-in + custom, minus disabled).
    pub fn active_check_names(&self) -> (r: Vec<&str>)
        ensures
            views(r@) == titles(self.checks@),
    {
        let mut r: Vec<&str> = Vec::new();
        let mut i: usize = 0;
        while i < self.checks.len()
            invariant
                i <= self.checks.len(),
                r@.len() == i,
                forall|j: int| 0 <= j < i ==> (#[trigger] r@[j])@ == self.checks@[j].title(),
            decreases self.checks.len() - i,
        {
            r.push(self.checks[i].name());
            i += 1;
        }
        assert(views(r@) =~= titles(self.checks@));
        r
    }

    /// Register a check if it's enabled in configuration
    fn register_check(&mut self, config: &Config, check: Builtin)
        ensures
            final(self).checks@ == old(self).checks@ + (match if_enabled(*config)(check) {
                Some(registered) => seq![registered],
                None => Seq::empty(),
            }),
    {
        if !config.is_check_enabled(check.name()) {
            assert(self.checks@ =~= old(self).checks@ + Seq::<RegisteredCheck>::empty());
            return ;
        }
        self.checks.push(RegisteredCheck::Builtin(check));
        assert(self.checks@ =~= old(self).checks@ + seq![RegisteredCheck::Builtin(check)]);
    }

    /// Check a single AST node against all registered checks
    pub fn check_node(&self, node: &NodeEnum, config: &Config, ctx: &MigrationContext) -> (r: Vec<
        Violation,
    >)
        ensures
            violation_views(r@) == node_violations(self.checks@, *node, *config, ctx@),
    {
        let ghost f = report_of(*node, *config, ctx@);
        let mut r: Vec<Violation> = Vec::new();
        let mut i: usize = 0;
        assert(violation_views(r@) =~= self.checks@.take(0).flat_map(f));
        while i < self.checks.len()
            invariant
                i <= self.checks.len(),
                f == report_of(*node, *config, ctx@),
                violation_views(r@) == self.checks@.take(i as int).flat_map(f),
            decreases self.checks.len() - i,
        {
            let ghost before = r@;
            proof {
                self.checks@.lemma_flat_map_take_append(f, i as int);
            }
            let check = &self.checks[i];
            if !ctx.disables_check(check.name()) {
                let mut found = Self::attributed(check.check(node, config, ctx), check.name(), config);
                let ghost added = found@;
                r.append(&mut found);
                assert(violation_views(r@) =~= violation_views(before) + violation_views(added));
            } else {
                assert(violation_views(r@) =~= violation_views(before) + Seq::<
                    ViolationView,
                >::empty());
            }
            i += 1;
        }
        assert(self.checks@.take(self.checks@.len() as int) =~= self.checks@);
        r
    }

    /// The violations of a check with its configured severity and its name.
    fn attributed(violations: Vec<Violation>, check_name: &str, config: &Config) -> (r: Vec<
        Violation,
    >)
        ensures
            violation_views(r@) == violation_views(violations@).map_values(
                attribute(severity_of(*config, check_name@), check_name@),
            ),
    {
        let severity = if config.is_check_warning(check_name) {
            Severity::Warning
        } else {
            Severity::Error
        };
        let ghost f = attribute(severity, check_name@);
        let ghost all = violations@;
        let mut r: Vec<Violation> = Vec::new();
        for v in it: violations
            invariant
                f == attribute(severity, check_name@),
                it.seq() == all,
                r@.len() == it.index(),
                forall|j: int| 0 <= j < r@.len() ==> (#[trigger] r@[j])@ == f(all[j]@),
        {
            r.push(v.with_severity(severity).with_check_name(check_name));
        }
        assert(violation_views(r@) =~= violation_views(all).map_values(f));
        r
    }

    /// Check statements with safety-assured context.
    ///
    /// Returns `(line, violation)` pairs where `line` is the 1-indexed line number of
    /// the statement that produced the violation.
    ///
    /// The parser's location of a statement can point to white space or comments before it, so
    /// the line is that of the first token from there on. `token_starts` holds the byte offsets of
    /// the tokens that are not comments, in ascending order.
    pub fn check_stmts_with_context(
        &self,
        stmts: &[RawStmt],
        sql: &str,
        token_starts: &[usize],
        ignore_ranges: &[IgnoreRange],
        config: &Config,
        ctx: &MigrationContext,
    ) -> (r: ViolationList)
        requires
            sorted(token_starts@),
        ensures
            list_views(r@) == script_violations(
                self.checks@,
                stmts@,
                sql@,
                token_starts@,
                ignore_ranges@,
                *config,
                ctx@,
            ),
    {
        let ghost f = statement_report(
            self.checks@,
            sql@,
            token_starts@,
            ignore_ranges@,
            *config,
            ctx@,
        );
        let mut violations: ViolationList = Vec::new();
        let mut i: usize = 0;
        assert(list_views(violations@) =~= stmts@.take(0).flat_map(f));
        while i < stmts.len()
            invariant
                i <= stmts@.len(),
                sorted(token_starts@),
                f == statement_report(
                    self.checks@,
                    sql@,
                    token_starts@,
                    ignore_ranges@,
                    *config,
                    ctx@,
                ),
                list_views(violations@) == stmts@.take(i as int).flat_map(f),
            decreases stmts@.len() - i,
        {
            let ghost before = violations@;
            proof {
                stmts@.lemma_flat_map_take_append(f, i as int);
            }
            let raw_stmt = &stmts[i];
            if let Some(node) = extract_node(raw_stmt) {
                let start: usize = if raw_stmt.stmt_location < 0 {
                    0
                } else {
                    raw_stmt.stmt_location as usize
                };
                let offset = first_token_at_or_after(token_starts, start);
                let stmt_line = byte_offset_to_line(sql, offset);
                if !line_is_assured(ignore_ranges, stmt_line) {
                    let mut found = placed(self.check_node(node, config, ctx), stmt_line);
                    let ghost added = found@;
                    violations.append(&mut found);
                    assert(list_views(violations@) =~= list_views(before) + list_views(added));
                } else {
                    assert(list_views(violations@) =~= list_views(before) + Seq::<
                        (usize, ViolationView),
                    >::empty());
                }
            } else {
                assert(list_views(violations@) =~= list_views(before) + Seq::<
                    (usize, ViolationView),
                >::empty());
            }
            i += 1;
        }
        assert(stmts@.take(stmts@.len() as int) =~= stmts@);
        violations
    }

    /// Get all built-in check names (regardless of which are enabled).
    pub fn builtin_check_names() -> (r: Vec<String>)
        ensures
            string_views(r@) == builtin_titles(),
    {
        let all = Self::all_builtin_checks();
        let mut r: Vec<String> = Vec::new();
        let mut i: usize = 0;
        while i < all.len()
            invariant
                i <= all.len(),
                all@ == builtin_checks(),
                r@.len() == i,
                forall|j: int| 0 <= j < i ==> (#[trigger] r@[j])@ == all@[j].title(),
            decreases all.len() - i,
        {
            r.push(all[i].name().to_string());
            i += 1;
        }
        assert(string_views(r@) =~= builtin_titles());
        r
    }
}

impl Default for Registry {
    fn default() -> (r: Registry)
        ensures
            r.checks@ == builtin_checks().map_values(|check: Builtin| RegisteredCheck::Builtin(check)),
    {
        Registry::new()
    }
}

/// The violations of a statement with its line.
fn placed(violations: Vec<Violation>, line: usize) -> (r: ViolationList)
    ensures
        list_views(r@) == violation_views(violations@).map_values(on_line(line)),
{
    let ghost all = violations@;
    let mut r: ViolationList = Vec::new();
    for v in it: violations
        invariant
            it.seq() == all,
            r@.len() == it.index(),
            forall|j: int|
                0 <= j < r@.len() ==> (#[trigger] r@[j]).0 == line && r@[j].1@ == all[j]@,
    {
        r.push((line, v));
    }
    assert(list_views(r@) =~= violation_views(all).map_values(on_line(line)));
    r
}

proof fn lemma_all_enabled(config: Config, checks: Seq<Builtin>)
    requires
        config.enable_checks@.len() == 0,
        config.disable_checks@.len() == 0,
    ensures
        checks.filter_map(if_enabled(config)) == checks.map_values(
            |check: Builtin| RegisteredCheck::Builtin(check),
        ),
    decreases checks.len(),
{
    if checks.len() > 0 {
        lemma_all_enabled(config, checks.drop_last());
        assert(config.enables(checks.last().title()));
        assert(checks.filter_map(if_enabled(config)) =~= checks.map_values(
            |check: Builtin| RegisteredCheck::Builtin(check),
        ));
    } else {
        assert(checks.filter_map(if_enabled(config)) =~= checks.map_values(
            |check: Builtin| RegisteredCheck::Builtin(check),
        ));
    }
}

// ---------------------------------------------------------------------------
// Laws
// ---------------------------------------------------------------------------

pub proof fn lemma_flat_map_member<A, B>(s: Seq<A>, f: spec_fn(A) -> Seq<B>, elem: B)
    requires
        s.flat_map(f).contains(elem),
    ensures
        exists|i: int| 0 <= i < s.len() && f(#[trigger] s[i]).contains(elem),
    decreases s.len(),
{
    if s.len() == 0 {
        assert(s.flat_map(f) =~= Seq::<B>::empty());
    } else {
        let rest = s.drop_last();
        assert(rest.push(s.last()) =~= s);
        rest.lemma_flat_map_push(f, s.last());
        let k = choose|k: int| 0 <= k < s.flat_map(f).len() && s.flat_map(f)[k] == elem;
        if k < rest.flat_map(f).len() {
            assert(rest.flat_map(f)[k] == elem);
            lemma_flat_map_member(rest, f, elem);
            let i = choose|i: int| 0 <= i < rest.len() && f(#[trigger] rest[i]).contains(elem);
            assert(s[i] == rest[i]);
        } else {
            assert(f(s.last())[k - rest.flat_map(f).len()] == elem);
            assert(f(s[s.len() - 1]).contains(elem));
        }
    }
}

/// Every violation that a registry reports of a statement carries the name of one of its checks,
/// which the migration does not disable, and the severity that is configured for that check.
pub proof fn law_violations_are_attributed(
    checks: Seq<RegisteredCheck>,
    node: NodeEnum,
    config: Config,
    ctx: ContextView,
    v: ViolationView,
)
    requires
        node_violations(checks, node, config, ctx).contains(v),
    ensures
        titles(checks).contains(v.check_name),
        !ctx.disabled_checks.contains(v.check_name),
        v.severity == severity_of(config, v.check_name),
{
    let f = report_of(node, config, ctx);
    lemma_flat_map_member(checks, f, v);
    let i = choose|i: int| 0 <= i < checks.len() && f(#[trigger] checks[i]).contains(v);
    let found = f(checks[i]);
    let k = choose|k: int| 0 <= k < found.len() && found[k] == v;
    assert(titles(checks)[i] == v.check_name);
}

/// No violation is reported on a line inside a safety-assured block.
pub proof fn law_assured_lines_are_silent(
    checks: Seq<RegisteredCheck>,
    stmts: Seq<RawStmt>,
    sql: Seq<char>,
    token_starts: Seq<usize>,
    ranges: Seq<IgnoreRange>,
    config: Config,
    ctx: ContextView,
    entry: (usize, ViolationView),
)
    requires
        script_violations(checks, stmts, sql, token_starts, ranges, config, ctx).contains(entry),
    ensures
        !is_assured(ranges, entry.0),
        !ctx.disabled_checks.contains(entry.1.check_name),
{
    let f = statement_report(checks, sql, token_starts, ranges, config, ctx);
    lemma_flat_map_member(stmts, f, entry);
    let i = choose|i: int| 0 <= i < stmts.len() && f(#[trigger] stmts[i]).contains(entry);
    let node = stmts[i].stmt->0;
    let found = node_violations(checks, node, config, ctx);
    let report = f(stmts[i]);
    let k = choose|k: int| 0 <= k < report.len() && report[k] == entry;
    assert(found[k] == entry.1);
    law_violations_are_attributed(checks, node, config, ctx, entry.1);
}

/// Outside safety-assured blocks a statement is reported in full, and inside them not at all.
pub proof fn law_assurance_is_all_or_nothing(
    checks: Seq<RegisteredCheck>,
    stmt: RawStmt,
    sql: Seq<char>,
    token_starts: Seq<usize>,
    ranges: Seq<IgnoreRange>,
    config: Config,
    ctx: ContextView,
)
    ensures
        script_violations(checks, seq![stmt], sql, token_starts, ranges, config, ctx) == if is_assured(
            ranges,
            statement_line(stmt, sql, token_starts),
        ) {
            Seq::empty()
        } else {
            script_violations(checks, seq![stmt], sql, token_starts, Seq::empty(), config, ctx)
        },
{
    let with = statement_report(checks, sql, token_starts, ranges, config, ctx);
    let without = statement_report(checks, sql, token_starts, Seq::empty(), config, ctx);
    seq![stmt].lemma_flat_map_singleton(with);
    seq![stmt].lemma_flat_map_singleton(without);
}

/// Two scripts checked one after the other give what the first gives, then what the second gives.
pub proof fn law_statements_are_independent(
    checks: Seq<RegisteredCheck>,
    first: Seq<RawStmt>,
    second: Seq<RawStmt>,
    sql: Seq<char>,
    token_starts: Seq<usize>,
    ranges: Seq<IgnoreRange>,
    config: Config,
    ctx: ContextView,
)
    ensures
        script_violations(checks, first + second, sql, token_starts, ranges, config, ctx)
            == script_violations(checks, first, sql, token_starts, ranges, config, ctx)
            + script_violations(checks, second, sql, token_starts, ranges, config, ctx),
    decreases second.len(),
{
    let f = statement_report(checks, sql, token_starts, ranges, config, ctx);
    if second.len() == 0 {
        assert(first + second =~= first);
        assert(second.flat_map(f) =~= Seq::<(usize, ViolationView)>::empty());
        assert(first.flat_map(f) + second.flat_map(f) =~= first.flat_map(f));
    } else {
        let rest = second.drop_last();
        law_statements_are_independent(checks, first, rest, sql, token_starts, ranges, config, ctx);
        assert(rest.push(second.last()) =~= second);
        assert((first + rest).push(second.last()) =~= first + second);
        rest.lemma_flat_map_push(f, second.last());
        (first + rest).lemma_flat_map_push(f, second.last());
        assert(first.flat_map(f) + rest.flat_map(f) + f(second.last()) =~= first.flat_map(f) + (
        rest.flat_map(f) + f(second.last())));
    }
}

/// A registry holds a built-in check if and only if the configuration enables it.
pub proof fn law_registry_follows_configuration(config: Config, check: Builtin)
    requires
        builtin_checks().contains(check),
    ensures
        enabled_checks(config).contains(RegisteredCheck::Builtin(check)) <==> config.enables(
            check.title(),
        ),
{
    lemma_enabled_member(config, builtin_checks(), check);
}

proof fn lemma_enabled_member(config: Config, checks: Seq<Builtin>, check: Builtin)
    ensures
        checks.filter_map(if_enabled(config)).contains(RegisteredCheck::Builtin(check)) <==> (
        checks.contains(check) && config.enables(check.title())),
    decreases checks.len(),
{
    let f = if_enabled(config);
    let all = checks.filter_map(f);
    if checks.len() > 0 {
        let rest = checks.drop_last();
        let kept = rest.filter_map(f);
        lemma_enabled_member(config, rest, check);
        let wanted = RegisteredCheck::Builtin(check);
        if all.contains(wanted) {
            let k = choose|k: int| 0 <= k < all.len() && all[k] == wanted;
            if k < kept.len() {
                assert(kept[k] == wanted);
                assert(rest.contains(check));
                let i = choose|i: int| 0 <= i < rest.len() && rest[i] == check;
                assert(checks[i] == check);
            } else {
                assert(checks[checks.len() - 1] == check);
            }
        }
        if checks.contains(check) && config.enables(check.title()) {
            let i = choose|i: int| 0 <= i < checks.len() && checks[i] == check;
            if i < rest.len() {
                assert(rest[i] == check);
                assert(kept.contains(wanted));
                let k = choose|k: int| 0 <= k < kept.len() && kept[k] == wanted;
                assert(all[k] == wanted);
            } else {
                assert(all[all.len() - 1] == wanted);
            }
        }
    }
}

proof fn lemma_newlines_grow(bytes: Seq<u8>, a: int, b: int)
    requires
        0 <= a <= b <= bytes.len(),
    ensures
        newlines(bytes.take(a)) <= newlines(bytes.take(b)) <= newlines(bytes.take(a)) + (b - a),
    decreases b - a,
{
    if a < b {
        lemma_newlines_grow(bytes, a, b - 1);
        assert(bytes.take(b).drop_last() =~= bytes.take(b - 1));
    }
}

/// Lines are numbered from 1, and a later offset is never on an earlier line.
pub proof fn law_lines_ascend(bytes: Seq<u8>, a: int, b: int)
    requires
        0 <= a <= b,
    ensures
        1 <= line_at(bytes, a) <= line_at(bytes, b),
{
    let x = if a <= bytes.len() {
        a
    } else {
        bytes.len() as int
    };
    let y = if b <= bytes.len() {
        b
    } else {
        bytes.len() as int
    };
    lemma_newlines_grow(bytes, x, y);
}

/// A check that is added comes last, and replaces none, not even one of the same name.
pub proof fn law_added_checks_come_last(checks: Seq<RegisteredCheck>, check: RegisteredCheck)
    ensures
        titles(checks.push(check)) == titles(checks).push(check.title()),
{
    assert(titles(checks.push(check)) =~= titles(checks).push(check.title()));
}

/// Lines are counted by line feeds: the first offset is on line 1, an offset is on the line of the one
/// before it, or on the next if a line feed stands between them, and past the end nothing changes.
pub proof fn law_line_feeds_part_the_lines(bytes: Seq<u8>, offset: int)
    requires
        0 <= offset,
        bytes.len() < usize::MAX,
    ensures
        line_at(bytes, 0) == 1,
        offset < bytes.len() ==> line_at(bytes, offset + 1) == line_at(bytes, offset) + (
        if bytes[offset] == 10u8 {
            1int
        } else {
            0int
        }),
        offset >= bytes.len() ==> line_at(bytes, offset) == line_at(bytes, bytes.len() as int),
{
    assert(bytes.take(0) =~= Seq::<u8>::empty());
    lemma_newlines_grow(bytes, 0, if offset < bytes.len() {
        offset + 1
    } else {
        bytes.len() as int
    });
    if offset < bytes.len() {
        lemma_newlines_grow(bytes, 0, offset);
        assert(bytes.take(offset + 1).drop_last() =~= bytes.take(offset));
        assert(bytes.take(offset + 1).last() == bytes[offset]);
    }
}

/// A statement is on the line of its first token: the first one that does not start before the
/// place that the parser gives. Where no such token follows, that place counts.
pub proof fn law_statements_are_on_the_line_of_their_first_token(
    stmt: RawStmt,
    sql: Seq<char>,
    token_starts: Seq<usize>,
    k: int,
)
    requires
        0 <= k <= token_starts.len(),
        forall|i: int| 0 <= i < k ==> (#[trigger] token_starts[i]) < stmt.stmt_location,
        k < token_starts.len() ==> token_starts[k] >= stmt.stmt_location,
    ensures
        statement_line(stmt, sql, token_starts) == line_at(
            encode_utf8(sql),
            if k < token_starts.len() {
                token_starts[k] as int
            } else if stmt.stmt_location < 0 {
                0
            } else {
                stmt.stmt_location as int
            },
        ),
{
    lemma_first_not_before(token_starts, location(stmt), 0, k);
}

/// Every check of a registry is asked, in their order.
pub proof fn law_checks_report_in_turn(
    first: Seq<RegisteredCheck>,
    second: Seq<RegisteredCheck>,
    node: NodeEnum,
    config: Config,
    ctx: ContextView,
)
    ensures
        node_violations(first + second, node, config, ctx) == node_violations(
            first,
            node,
            config,
            ctx,
        ) + node_violations(second, node, config, ctx),
    decreases second.len(),
{
    let f = report_of(node, config, ctx);
    if second.len() == 0 {
        assert(first + second =~= first);
        assert(second.flat_map(f) =~= Seq::<ViolationView>::empty());
        assert(first.flat_map(f) + second.flat_map(f) =~= first.flat_map(f));
    } else {
        let rest = second.drop_last();
        law_checks_report_in_turn(first, rest, node, config, ctx);
        assert(rest.push(second.last()) =~= second);
        assert((first + rest).push(second.last()) =~= first + second);
        rest.lemma_flat_map_push(f, second.last());
        (first + rest).lemma_flat_map_push(f, second.last());
        assert(first.flat_map(f) + rest.flat_map(f) + f(second.last()) =~= first.flat_map(f) + (
        rest.flat_map(f) + f(second.last())));
    }
}

/// What a check reports is passed on in full and in order unless the migration disables the check:
/// nothing of it is changed but the name, which is that of the check, and the severity, which is a
/// warning exactly if the configuration lists the check among those that warn.
pub proof fn law_reports_are_passed_on(
    check: RegisteredCheck,
    node: NodeEnum,
    config: Config,
    ctx: ContextView,
)
    ensures
        ({
            let found = check.violations(node, config, ctx);
            let reported = node_violations(seq![check], node, config, ctx);
            let warns = exists|k: int|
                0 <= k < config.warn_checks@.len() && #[trigger] config.warn_checks@[k]@
                    == check.title();
            if exists|k: int|
                0 <= k < ctx.disabled_checks.len() && #[trigger] ctx.disabled_checks[k]
                    == check.title() {
                reported.len() == 0
            } else {
                &&& reported.len() == found.len()
                &&& forall|i: int|
                    0 <= i < found.len() ==> {
                        &&& (#[trigger] reported[i]).operation == found[i].operation
                        &&& reported[i].problem == found[i].problem
                        &&& reported[i].safe_alternative == found[i].safe_alternative
                        &&& reported[i].check_name == check.title()
                        &&& reported[i].severity == if warns {
                            Severity::Warning
                        } else {
                            Severity::Error
                        }
                    }
            }
        }),
{
    let f = report_of(node, config, ctx);
    seq![check].lemma_flat_map_singleton(f);
    if ctx.disabled_checks.contains(check.title()) {
        let k = ctx.disabled_checks.index_of(check.title());
        assert(ctx.disabled_checks[k] == check.title());
    }
}

/// All built-in checks are in the registry of a configuration that names none, each of them once, and a
/// configuration leaves in those that it lists as enabled, if it lists any, and takes out those that
/// it lists as disabled.
pub proof fn law_lists_choose_the_checks(config: Config, check: Builtin)
    ensures
        builtin_checks().contains(check),
        builtin_checks().no_duplicates(),
        enabled_checks(config).contains(RegisteredCheck::Builtin(check)) <==> {
            &&& config.enable_checks@.len() == 0 || exists|k: int|
                0 <= k < config.enable_checks@.len() && #[trigger] config.enable_checks@[k]@
                    == check.title()
            &&& forall|k: int|
                0 <= k < config.disable_checks@.len() ==> #[trigger] config.disable_checks@[k]@
                    != check.title()
        },
{
    let all = builtin_checks();
    lemma_builtin_position(check);
    assert(all.no_duplicates());
    lemma_enabled_member(config, all, check);
}

spec fn builtin_position(check: Builtin) -> int {
    match check {
        Builtin::AddCheckConstraint => 0,
        Builtin::AddColumn => 1,
        Builtin::AddDomainCheckConstraint => 2,
        Builtin::AddExcludeConstraint => 3,
        Builtin::AddForeignKey => 4,
        Builtin::AddIdentityColumn => 5,
        Builtin::AddIndex => 6,
        Builtin::AddJsonColumn => 7,
        Builtin::AddNotNull => 8,
        Builtin::AddPrimaryKey => 9,
        Builtin::AddSerialColumn => 10,
        Builtin::AddUniqueConstraint => 11,
        Builtin::AlterColumnType => 12,
        Builtin::CharType => 13,
        Builtin::CreateExtension => 14,
        Builtin::CreateTableSerial => 15,
        Builtin::CreateTableWithoutPk => 16,
        Builtin::DropColumn => 17,
        Builtin::DropDatabase => 18,
        Builtin::DropIndex => 19,
        Builtin::DropNotNull => 20,
        Builtin::DropPrimaryKey => 21,
        Builtin::DropTable => 22,
        Builtin::GeneratedColumn => 23,
        Builtin::IdempotencyAlter => 24,
        Builtin::IdempotencyCreate => 25,
        Builtin::IdempotencyDrop => 26,
        Builtin::IdempotencyIndex => 27,
        Builtin::MutationWithoutWhere => 28,
        Builtin::RefreshMatView => 29,
        Builtin::Reindex => 30,
        Builtin::RenameColumn => 31,
        Builtin::RenameSchema => 32,
        Builtin::RenameTable => 33,
        Builtin::ShortIntegerPrimaryKey => 34,
        Builtin::TimestampType => 35,
        Builtin::TruncateTable => 36,
        Builtin::UnnamedConstraint => 37,
        Builtin::WideIndex => 38,
    }
}

proof fn lemma_builtin_position(check: Builtin)
    ensures
        0 <= builtin_position(check) < builtin_checks().len(),
        builtin_checks()[builtin_position(check)] == check,
{
}

/// The checks that a configuration leaves in stand in the order of the built-in checks.
pub proof fn law_checks_keep_their_order(config: Config, checks: Seq<Builtin>, check: Builtin)
    ensures
        checks.push(check).filter_map(if_enabled(config)) == if config.enables(check.title()) {
            checks.filter_map(if_enabled(config)).push(RegisteredCheck::Builtin(check))
        } else {
            checks.filter_map(if_enabled(config))
        },
        enabled_checks(config) == builtin_checks().filter_map(if_enabled(config)),
{
    let f = if_enabled(config);
    assert(checks.push(check).drop_last() =~= checks);
    assert(checks.push(check).filter_map(f) =~= match f(check) {
        Some(kept) => checks.filter_map(f).push(kept),
        None => checks.filter_map(f),
    });
}

} // verus!
