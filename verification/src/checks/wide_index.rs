//! Indexes on more than three columns: rarely used as intended, costly on every write.

use super::pg_helpers::{name_or, nonempty_or, table_name, table_of, NodeEnum};
use super::Check;
use crate::adapters::{ContextView, MigrationContext};
use crate::config::Config;
use crate::text::{decimal, decimal_text, join, join_strings, string_views, views};
use crate::violation::{finding, no_violations, single_violation, Violation, ViolationView};
use vstd::prelude::*;

verus! {

/// The largest number of columns that is not reported.
pub const MAX_COLUMNS: usize = 3;

/// What the violation says of the problem.
pub const PROBLEM: &'static str =
    "Index '{1}' on table '{0}' has {2} columns ({3}). \
                Wide indexes (4+ columns) are rarely effective because Postgres can only use them efficiently \
                when filtering on leftmost columns in order. They also increase storage costs and slow down writes.";

/// What the violation says to do instead.
pub const SAFE_ALTERNATIVE: &'static str =
    r"Consider these alternatives:

1. Use a partial index for specific query patterns:
   CREATE INDEX {1} ON {0}({4})
   WHERE <condition>;

2. Create separate narrower indexes for different queries:
   CREATE INDEX idx_{0}_{4} ON {0}({4});
   CREATE INDEX idx_{0}_{5} ON {0}({5});

3. Rethink your query patterns - do you really need to filter on all {2} columns?

4. Use a covering index (INCLUDE clause) if you need extra columns for data:
   CREATE INDEX {1} ON {0}({4})
   INCLUDE ({6});

Note: Multi-column indexes are occasionally useful (e.g., for composite foreign keys or specific query patterns). If you've verified this index is necessary, use a safety-assured block.";

pub struct WideIndexCheck;

/// The column of an index element; `<expr>` if it is an expression.
pub open spec fn index_column() -> spec_fn(NodeEnum) -> Option<Seq<char>> {
    |n: NodeEnum|
        match n {
            NodeEnum::IndexElem(elem) => Some(name_or(elem.name@, "<expr>"@)),
            _ => None,
        }
}

/// The columns of an index, in their order.
pub open spec fn index_columns(params: Seq<NodeEnum>) -> Seq<Seq<char>> {
    params.filter_map(index_column())
}

fn index_column_names(params: &Vec<NodeEnum>) -> (r: Vec<String>)
    ensures
        string_views(r@) == index_columns(params@),
{
    let mut r: Vec<String> = Vec::new();
    let mut i: usize = 0;
    assert(string_views(r@) =~= index_columns(params@.take(0)));
    while i < params.len()
        invariant
            i <= params.len(),
            string_views(r@) == index_columns(params@.take(i as int)),
        decreases params.len() - i,
    {
        let ghost before = r@;
        proof {
            params@.lemma_filter_map_take_succ(index_column(), i as int);
        }
        if let NodeEnum::IndexElem(elem) = &params[i] {
            let name = nonempty_or(elem.name.as_str(), "<expr>");
            r.push(name);
            assert(string_views(r@) =~= string_views(before).push(name@));
        }
        i += 1;
    }
    assert(params@.take(params@.len() as int) =~= params@);
    r
}

impl Check for WideIndexCheck {
    open spec fn title(&self) -> Seq<char> {
        "WideIndexCheck"@
    }

    open spec fn violations(
        &self,
        node: NodeEnum,
        config: Config,
        ctx: ContextView,
    ) -> Seq<ViolationView> {
        match node {
            NodeEnum::IndexStmt(stmt) => {
                let columns = index_columns(stmt.index_params@);
                if columns.len() <= MAX_COLUMNS {
                    Seq::empty()
                } else {
                    seq![
                        finding(
                            "CREATE INDEX with too many columns"@,
                            PROBLEM@,
                            SAFE_ALTERNATIVE@,
                            seq![
                                table_of(stmt.relation),
                                name_or(stmt.idxname@, "<unnamed>"@),
                                decimal(columns.len()),
                                join(columns, ", "@),
                                columns[0],
                                columns[1],
                                join(columns.skip(1), ", "@),
                            ],
                        ),
                    ]
                }
            },
            _ => Seq::empty(),
        }
    }

    fn name(&self) -> (r: &str) {
        "WideIndexCheck"
    }

    fn check(&self, node: &NodeEnum, config: &Config, ctx: &MigrationContext) -> (r: Vec<Violation>) {
        let NodeEnum::IndexStmt(stmt) = node else {
            return no_violations();
        };
        let columns = index_column_names(&stmt.index_params);
        let ghost all = string_views(columns@);
        let column_count: usize = columns.len();
        if column_count <= MAX_COLUMNS {
            return no_violations();
        }
        let table = table_name(&stmt.relation);
        let index_name = nonempty_or(stmt.idxname.as_str(), "<unnamed>");
        let count = decimal_text(column_count as u64);
        let columns_list = join_strings(&columns, 0, ", ");
        let other_cols = join_strings(&columns, 1, ", ");
        let args: Vec<&str> = vec![
            table.as_str(),
            index_name.as_str(),
            count.as_str(),
            columns_list.as_str(),
            columns[0].as_str(),
            columns[1].as_str(),
            other_cols.as_str(),
        ];
        proof {
            assert(all.skip(0) =~= all);
            assert(views(args@) =~= seq![
                table@,
                index_name@,
                count@,
                columns_list@,
                all[0],
                all[1],
                other_cols@,
            ]);
        }
        single_violation(
            Violation::from_templates(
                "CREATE INDEX with too many columns",
                PROBLEM,
                SAFE_ALTERNATIVE,
                &args,
            ),
        )
    }
}

} // verus!
