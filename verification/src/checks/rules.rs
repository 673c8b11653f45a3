//! Rules that look at one part of a statement at a time, and the loops that apply them.

use super::pg_helpers::{
    alter_table_cmds, cmds_of, drop_object_names, object_names, table_of, NodeEnum,
};
use crate::adapters::{ContextView, MigrationContext};
use crate::ast::{AlterTableCmd, DropBehavior, DropStmt};
use crate::text::string_views;
use crate::violation::{no_violations, opt_view, violation_views, Violation, ViolationView};
use vstd::prelude::*;

verus! {

/// A rule on the commands of an ALTER TABLE statement.
pub trait AlterRule {
    /// What the rule reports of one command.
    spec fn rule(&self, table: Seq<char>, cmd: AlterTableCmd) -> Option<ViolationView>;

    /// Applies the rule to one command.
    fn apply(&self, table: &str, cmd: &AlterTableCmd) -> (r: Option<Violation>)
        ensures
            opt_view(r) == self.rule(table@, *cmd),
    ;
}

/// The rule as a function of the command.
pub open spec fn on_cmd<R: AlterRule>(rule: R, table: Seq<char>) -> spec_fn(AlterTableCmd) -> Option<
    ViolationView,
> {
    |cmd: AlterTableCmd| rule.rule(table, cmd)
}

/// What a rule reports of a statement: of an ALTER TABLE, what it reports of each command in turn.
pub open spec fn alter_violations<R: AlterRule>(rule: R, node: NodeEnum) -> Seq<ViolationView> {
    match node {
        NodeEnum::AlterTableStmt(alter) => cmds_of(alter).filter_map(
            on_cmd(rule, table_of(alter.relation)),
        ),
        _ => Seq::empty(),
    }
}

/// Applies a rule to every command of a statement, as `alter_violations` says.
pub fn check_alter<R: AlterRule>(rule: &R, node: &NodeEnum) -> (r: Vec<Violation>)
    ensures
        violation_views(r@) == alter_violations(*rule, *node),
{
    let Some(found) = alter_table_cmds(node) else {
        return no_violations();
    };
    let (table, cmds) = found;
    let ghost all = cmds@.unref();
    let ghost f = on_cmd(*rule, table@);
    let mut r: Vec<Violation> = Vec::new();
    let mut i: usize = 0;
    assert(violation_views(r@) =~= all.take(0).filter_map(f));
    while i < cmds.len()
        invariant
            i <= cmds.len(),
            all == cmds@.unref(),
            f == on_cmd(*rule, table@),
            violation_views(r@) == all.take(i as int).filter_map(f),
        decreases cmds.len() - i,
    {
        let ghost before = r@;
        proof {
            all.lemma_filter_map_take_succ(f, i as int);
        }
        if let Some(v) = rule.apply(table.as_str(), cmds[i]) {
            r.push(v);
            assert(violation_views(r@) =~= violation_views(before).push(v@));
        }
        i += 1;
    }
    assert(all.take(all.len() as int) =~= all);
    r
}

/// A rule on the objects that a DROP statement lists.
pub trait DropRule {
    /// What the rule reports of one object.
    spec fn report(&self, drop_stmt: DropStmt, ctx: ContextView, name: Seq<char>) -> ViolationView;

    /// Applies the rule to one object.
    fn apply(&self, drop_stmt: &DropStmt, ctx: &MigrationContext, name: &str) -> (r: Violation)
        ensures
            r@ == self.report(*drop_stmt, ctx@, name@),
    ;
}

/// The rule as a function of the object.
pub open spec fn on_object<R: DropRule>(
    rule: R,
    drop_stmt: DropStmt,
    ctx: ContextView,
) -> spec_fn(Seq<char>) -> ViolationView {
    |name: Seq<char>| rule.report(drop_stmt, ctx, name)
}

/// What a rule reports of each object that a DROP statement lists.
pub open spec fn drop_violations<R: DropRule>(
    rule: R,
    drop_stmt: DropStmt,
    ctx: ContextView,
) -> Seq<ViolationView> {
    object_names(drop_stmt.objects@).map_values(on_object(rule, drop_stmt, ctx))
}

/// Applies a rule to every object that a DROP statement lists.
pub fn check_dropped<R: DropRule>(rule: &R, drop_stmt: &DropStmt, ctx: &MigrationContext) -> (r: Vec<
    Violation,
>)
    ensures
        violation_views(r@) == drop_violations(*rule, *drop_stmt, ctx@),
{
    let names = drop_object_names(&drop_stmt.objects);
    let ghost all = string_views(names@);
    let ghost f = on_object(*rule, *drop_stmt, ctx@);
    let mut r: Vec<Violation> = Vec::new();
    let mut i: usize = 0;
    assert(violation_views(r@) =~= all.take(0).map_values(f));
    while i < names.len()
        invariant
            i <= names.len(),
            all == string_views(names@),
            f == on_object(*rule, *drop_stmt, ctx@),
            violation_views(r@) == all.take(i as int).map_values(f),
        decreases names.len() - i,
    {
        let ghost before = r@;
        let v = rule.apply(drop_stmt, ctx, names[i].as_str());
        r.push(v);
        proof {
            all.lemma_map_take_succ(f, i as int);
            assert(violation_views(r@) =~= violation_views(before).push(v@));
        }
        i += 1;
    }
    assert(all.take(all.len() as int) =~= all);
    r
}

/// ` CASCADE` or ` RESTRICT` where the statement says so, nothing otherwise.
pub open spec fn behavior_text(behavior: DropBehavior) -> Seq<char> {
    match behavior {
        DropBehavior::DropCascade => " CASCADE"@,
        DropBehavior::DropRestrict => " RESTRICT"@,
        DropBehavior::Undefined => ""@,
    }
}

/// The clause for a drop behavior, as `behavior_text` says.
pub fn behavior_clause(behavior: DropBehavior) -> (r: &'static str)
    ensures
        r@ == behavior_text(behavior),
{
    match behavior {
        DropBehavior::DropCascade => " CASCADE",
        DropBehavior::DropRestrict => " RESTRICT",
        DropBehavior::Undefined => "",
    }
}

} // verus!
