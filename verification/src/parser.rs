//! Parsed SQL with the directives in its comments.

pub mod comment_parser;

pub use comment_parser::{CommentParser, IgnoreRange};

use crate::ast::RawStmt;
use crate::error::{DieselGuardError, Result};
use crate::text::string_views;
use comment_parser::{blocks, disabled_checks_of, line_kinds};
use crate::checks::registry::sorted;
use vstd::prelude::*;

verus! {

/// What the Postgres parser and scanner find in a text: its statements, and the byte offsets of its
/// tokens that are not comments, in ascending order.
#[derive(Debug, Default)]
pub struct Statements {
    pub stmts: Vec<RawStmt>,
    pub token_starts: Vec<usize>,
}

/// A parsed text with the directives in its comments.
#[derive(Debug)]
pub struct ParsedSql {
    pub stmts: Vec<RawStmt>,
    pub token_starts: Vec<usize>,
    pub sql: String,
    pub ignore_ranges: Vec<IgnoreRange>,
    pub disabled_checks: Vec<String>,
}

/// Puts the statements of a text and the directives in its comments together. An error of the parser
/// comes before one in the directives.
pub fn parse_with_metadata(sql: &str, statements: Result<Statements>) -> (r: Result<ParsedSql>)
    ensures
        match statements {
            Ok(found) => match blocks(line_kinds(sql@)) {
                Ok(ranges) => r matches Ok(parsed) && parsed.stmts == found.stmts
                    && parsed.token_starts == found.token_starts && parsed.sql@ == sql@
                    && parsed.ignore_ranges@ == ranges && string_views(parsed.disabled_checks@)
                    == disabled_checks_of(sql@),
                Err(fault) => r matches Err(DieselGuardError::ParseError { msg, src, span }) && msg@
                    == fault.text() && src is None && span is None,
            },
            Err(err) => r matches Err(e) && e == err,
        },
{
    match statements {
        Ok(found) => match CommentParser::parse_ignore_ranges(sql) {
            Ok(ignore_ranges) => {
                let disabled_checks = CommentParser::parse_disabled_checks(sql);
                Ok(
                    ParsedSql {
                        stmts: found.stmts,
                        token_starts: found.token_starts,
                        sql: sql.to_string(),
                        ignore_ranges,
                        disabled_checks,
                    },
                )
            },
            Err(err) => Err(err),
        },
        Err(err) => Err(err),
    }
}

/// A token of an SQL text, as the scanner finds it.
#[derive(Debug, Clone, Copy, PartialEq, Eq, Structural)]
pub struct Token {
    /// The byte offset at which it starts.
    pub start: i32,
    /// Whether it is a comment.
    pub is_comment: bool,
}

/// Where a token starts, unless it is a comment. A negative offset counts as the start of the text.
pub open spec fn token_start() -> spec_fn(Token) -> Option<usize> {
    |token: Token|
        if token.is_comment {
            None
        } else if token.start < 0 {
            Some(0)
        } else {
            Some(token.start as usize)
        }
}

/// Whether tokens stand in the order in which they start.
pub open spec fn ascending(tokens: Seq<Token>) -> bool {
    forall|i: int, j: int| 0 <= i <= j < tokens.len() ==> tokens[i].start <= tokens[j].start
}

proof fn lemma_starts_sorted(tokens: Seq<Token>)
    requires
        ascending(tokens),
    ensures
        sorted(tokens.filter_map(token_start())),
        forall|k: int|
            0 <= k < tokens.filter_map(token_start()).len() ==> tokens.len() > 0 && (
            #[trigger] tokens.filter_map(token_start())[k]) <= (if tokens.last().start < 0 {
                0
            } else {
                tokens.last().start as int
            }),
    decreases tokens.len(),
{
    if tokens.len() > 0 {
        let rest = tokens.drop_last();
        assert(ascending(rest));
        lemma_starts_sorted(rest);
        let before = rest.filter_map(token_start());
        let all = tokens.filter_map(token_start());
        assert forall|k: int| 0 <= k < before.len() implies before[k] <= (if tokens.last().start < 0 {
            0
        } else {
            tokens.last().start as int
        }) by {
            assert(rest.len() > 0);
            assert(tokens[rest.len() - 1].start <= tokens[tokens.len() - 1].start);
            assert(rest.last() == tokens[rest.len() - 1]);
        }
    }
}

/// Sorted byte positions of all non-comment tokens.
pub fn non_comment_token_starts(tokens: &Vec<Token>) -> (r: Vec<usize>)
    ensures
        r@ == tokens@.filter_map(token_start()),
        ascending(tokens@) ==> sorted(r@),
{
    let ghost f = token_start();
    let mut r: Vec<usize> = Vec::new();
    let mut i: usize = 0;
    assert(r@ =~= tokens@.take(0).filter_map(f));
    while i < tokens.len()
        invariant
            i <= tokens.len(),
            f == token_start(),
            r@ == tokens@.take(i as int).filter_map(f),
        decreases tokens.len() - i,
    {
        proof {
            tokens@.lemma_filter_map_take_succ(f, i as int);
        }
        let token = tokens[i];
        if !token.is_comment {
            r.push(if token.start < 0 {
                0
            } else {
                token.start as usize
            });
        }
        i += 1;
    }
    proof {
        assert(tokens@.take(tokens@.len() as int) =~= tokens@);
        if ascending(tokens@) {
            lemma_starts_sorted(tokens@);
        }
    }
    r
}

/// The tokens that count are those that are no comments, in their order and with the offsets at which
/// they start; a negative offset counts as the start of the text.
pub proof fn law_comments_do_not_count_as_tokens(tokens: Seq<Token>, token: Token)
    ensures
        Seq::<Token>::empty().filter_map(token_start()).len() == 0,
        tokens.push(token).filter_map(token_start()) == if token.is_comment {
            tokens.filter_map(token_start())
        } else if token.start < 0 {
            tokens.filter_map(token_start()).push(0usize)
        } else {
            tokens.filter_map(token_start()).push(token.start as usize)
        },
{
    let f = token_start();
    assert(tokens.push(token).drop_last() =~= tokens);
    assert(tokens.push(token).filter_map(f) =~= match f(token) {
        Some(start) => tokens.filter_map(f).push(start),
        None => tokens.filter_map(f),
    });
}

} // verus!
