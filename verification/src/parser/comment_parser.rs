//! Parse safety-assured directives from SQL comments

use crate::error::{DieselGuardError, Result};
use crate::pattern::{
    regex_capture, regex_is_match, Pattern, DISABLE_CHECKS_DIRECTIVE, END_DIRECTIVE,
    START_DIRECTIVE,
};
use crate::text::laws::{
    law_holes_are_filled, law_line_feeds_end_lines, law_plain_templates_stay,
};
use crate::text::{
    decimal, decimal_text, fields, fill, fill_template, law_line_feed_closes_the_last_line,
    law_lines_of_joined_texts, lines, split_fields, split_lines, string_views, trim, trim_text,
    views,
};
use vstd::prelude::*;

verus! {

/// Represents a range of lines that should be ignored
#[derive(Debug, Clone, Copy, PartialEq, Eq, Structural)]
pub struct IgnoreRange {
    /// The line of the start directive.
    pub start_line: usize,
    /// The line of the end directive.
    pub end_line: usize,
}

/// How a range is displayed.
pub const RANGE_TEXT: &'static str = "lines {0}-{1}";

impl IgnoreRange {
    /// The text that is displayed for a range.
    pub fn display(&self) -> (r: String)
        ensures
            r@ == fill(
                RANGE_TEXT@,
                seq![decimal(self.start_line as nat), decimal(self.end_line as nat)],
            ),
    {
        let start = decimal_text(self.start_line as u64);
        let end = decimal_text(self.end_line as u64);
        let args: Vec<&str> = vec![start.as_str(), end.as_str()];
        assert(views(args@) =~= seq![start@, end@]);
        fill_template(RANGE_TEXT, &args)
    }

    /// Whether a line lies inside the range, between its two directives.
    pub open spec fn covers(self, line: int) -> bool {
        self.start_line < line < self.end_line
    }
}

/// What a line means to safety-assured blocks.
#[derive(Debug, Clone, Copy, PartialEq, Eq, Structural)]
pub enum LineKind {
    Start,
    End,
    Other,
}

/// Why the blocks do not fit together, with the line of the directive at fault.
#[derive(Debug, Clone, Copy, PartialEq, Eq, Structural)]
pub enum BlockError {
    Nested(usize),
    Unmatched(usize),
    Unclosed(usize),
}

/// What is said of a start directive inside a block.
pub const NESTED_TEXT: &'static str =
    "Nested 'safety-assured:start' at line {0}. Nested blocks are not supported. Close the previous block before starting a new one.";

/// What is said of an end directive outside a block.
pub const UNMATCHED_TEXT: &'static str =
    "Unmatched 'safety-assured:end' at line {0}. Each 'safety-assured:end' must have a matching 'safety-assured:start' before it.";

/// What is said of a block that does not end.
pub const UNCLOSED_TEXT: &'static str =
    "Unclosed 'safety-assured:start' at line {0}. Did you forget to add 'safety-assured:end'?";

impl BlockError {
    /// The text of an error.
    pub open spec fn text(self) -> Seq<char> {
        match self {
            BlockError::Nested(line) => fill(NESTED_TEXT@, seq![decimal(line as nat)]),
            BlockError::Unmatched(line) => fill(UNMATCHED_TEXT@, seq![decimal(line as nat)]),
            BlockError::Unclosed(line) => fill(UNCLOSED_TEXT@, seq![decimal(line as nat)]),
        }
    }

    /// The text of an error, as `text` says.
    pub fn message(&self) -> (r: String)
        ensures
            r@ == self.text(),
    {
        let line: usize = match self {
            BlockError::Nested(line) => *line,
            BlockError::Unmatched(line) => *line,
            BlockError::Unclosed(line) => *line,
        };
        let number = decimal_text(line as u64);
        let args: Vec<&str> = vec![number.as_str()];
        assert(views(args@) =~= seq![number@]);
        match self {
            BlockError::Nested(_) => fill_template(NESTED_TEXT, &args),
            BlockError::Unmatched(_) => fill_template(UNMATCHED_TEXT, &args),
            BlockError::Unclosed(_) => fill_template(UNCLOSED_TEXT, &args),
        }
    }
}

/// What is known after some lines: the blocks that are closed, and the line that opened the block
/// that is still open.
pub struct Progress {
    pub ranges: Seq<IgnoreRange>,
    pub open: Option<usize>,
}

/// What the next line does to the progress.
pub open spec fn step(before: Progress, kind: LineKind, line: usize) -> std::result::Result<
    Progress,
    BlockError,
> {
    match (kind, before.open) {
        (LineKind::Start, Some(_)) => Err(BlockError::Nested(line)),
        (LineKind::Start, None) => Ok(Progress { ranges: before.ranges, open: Some(line) }),
        (LineKind::End, Some(start_line)) => Ok(
            Progress {
                ranges: before.ranges.push(IgnoreRange { start_line, end_line: line }),
                open: None,
            },
        ),
        (LineKind::End, None) => Err(BlockError::Unmatched(line)),
        (LineKind::Other, _) => Ok(before),
    }
}

/// The progress after all the lines, which are numbered from 1.
pub open spec fn progress(kinds: Seq<LineKind>) -> std::result::Result<Progress, BlockError>
    decreases kinds.len(),
{
    if kinds.len() == 0 {
        Ok(Progress { ranges: Seq::empty(), open: None })
    } else {
        match progress(kinds.drop_last()) {
            Ok(before) => step(before, kinds.last(), kinds.len() as usize),
            Err(err) => Err(err),
        }
    }
}

/// The safety-assured blocks of a text whose lines are of the given kinds.
pub open spec fn blocks(kinds: Seq<LineKind>) -> std::result::Result<Seq<IgnoreRange>, BlockError> {
    match progress(kinds) {
        Ok(end) => match end.open {
            Some(line) => Err(BlockError::Unclosed(line)),
            None => Ok(end.ranges),
        },
        Err(err) => Err(err),
    }
}

proof fn lemma_error_stays(kinds: Seq<LineKind>, k: int)
    requires
        0 <= k <= kinds.len(),
        progress(kinds.take(k)) is Err,
    ensures
        progress(kinds) == progress(kinds.take(k)),
    decreases kinds.len(),
{
    if k == kinds.len() {
        assert(kinds.take(k) =~= kinds);
    } else {
        assert(kinds.drop_last().take(k) =~= kinds.take(k));
        lemma_error_stays(kinds.drop_last(), k);
    }
}

/// Finds the safety-assured blocks, as `blocks` says.
pub fn find_blocks(kinds: &Vec<LineKind>) -> (r: std::result::Result<Vec<IgnoreRange>, BlockError>)
    ensures
        (match r {
            Ok(ranges) => Ok(ranges@),
            Err(err) => Err(err),
        }) == blocks(kinds@),
{
    let mut ranges: Vec<IgnoreRange> = Vec::new();
    let mut current_start: Option<usize> = None;
    let mut i: usize = 0;
    assert(kinds@.take(0) =~= Seq::<LineKind>::empty());
    assert(ranges@ =~= Seq::<IgnoreRange>::empty());
    while i < kinds.len()
        invariant
            i <= kinds.len(),
            progress(kinds@.take(i as int)) == Ok::<Progress, BlockError>(
                Progress { ranges: ranges@, open: current_start },
            ),
        decreases kinds.len() - i,
    {
        let line_num: usize = i + 1;
        proof {
            let next = kinds@.take(i + 1);
            assert(next.drop_last() =~= kinds@.take(i as int));
            assert(next.last() == kinds@[i as int]);
            assert(progress(next) == step(
                Progress { ranges: ranges@, open: current_start },
                kinds@[i as int],
                line_num,
            ));
        }
        match kinds[i] {
            LineKind::Start => {
                if current_start.is_some() {
                    proof {
                        lemma_error_stays(kinds@, i + 1);
                    }
                    return Err(BlockError::Nested(line_num));
                }
                current_start = Some(line_num);
            },
            LineKind::End => {
                match current_start {
                    Some(start_line) => {
                        ranges.push(IgnoreRange { start_line, end_line: line_num });
                        current_start = None;
                    },
                    None => {
                        proof {
                            lemma_error_stays(kinds@, i + 1);
                        }
                        return Err(BlockError::Unmatched(line_num));
                    },
                }
            },
            LineKind::Other => {},
        }
        i += 1;
    }
    assert(kinds@.take(kinds@.len() as int) =~= kinds@);
    if let Some(start_line) = current_start {
        return Err(BlockError::Unclosed(start_line));
    }
    Ok(ranges)
}

/// What a line means. White space around it does not count.
pub open spec fn line_kind() -> spec_fn(Seq<char>) -> LineKind {
    |line: Seq<char>|
        if regex_is_match(START_DIRECTIVE@, trim(line)) {
            LineKind::Start
        } else if regex_is_match(END_DIRECTIVE@, trim(line)) {
            LineKind::End
        } else {
            LineKind::Other
        }
}

/// What the lines of a text mean.
pub open spec fn line_kinds(sql: Seq<char>) -> Seq<LineKind> {
    lines(sql).map_values(line_kind())
}

/// The check names that a line disables, given what its directive captured.
pub open spec fn names_in(captured: Option<Seq<char>>) -> Seq<Seq<char>> {
    match captured {
        Some(names) => fields(names, ','),
        None => Seq::empty(),
    }
}

/// The check names that a line disables. White space around it does not count, and a blank line
/// disables nothing.
pub open spec fn disabled_on() -> spec_fn(Seq<char>) -> Seq<Seq<char>> {
    |line: Seq<char>|
        if trim(line).len() == 0 {
            Seq::empty()
        } else {
            names_in(regex_capture(DISABLE_CHECKS_DIRECTIVE@, trim(line), 1))
        }
}

/// The check names that a text disables, in the order in which they stand in it.
pub open spec fn disabled_checks_of(sql: Seq<char>) -> Seq<Seq<char>> {
    lines(sql).flat_map(disabled_on())
}

pub struct CommentParser;

impl CommentParser {
    /// Parse SQL and extract safety-assured blocks
    /// Returns: `Vec<IgnoreRange>` and validates matching start/end pairs
    pub fn parse_ignore_ranges(sql: &str) -> (r: Result<Vec<IgnoreRange>>)
        ensures
            match blocks(line_kinds(sql@)) {
                Ok(ranges) => r matches Ok(found) && found@ == ranges,
                Err(err) => r matches Err(DieselGuardError::ParseError { msg, src, span }) && msg@
                    == err.text() && src is None && span is None,
            },
    {
        let all = split_lines(sql);
        let start = Pattern::new(START_DIRECTIVE);
        let end = Pattern::new(END_DIRECTIVE);
        let mut kinds: Vec<LineKind> = Vec::new();
        let mut i: usize = 0;
        assert(kinds@ =~= lines(sql@).take(0).map_values(line_kind()));
        while i < all.len()
            invariant
                i <= all.len(),
                start@ == START_DIRECTIVE@,
                end@ == END_DIRECTIVE@,
                string_views(all@) == lines(sql@),
                kinds@ == lines(sql@).take(i as int).map_values(line_kind()),
            decreases all.len() - i,
        {
            let ghost line = all@[i as int]@;
            let trimmed = trim_text(all[i].as_str());
            let kind = if start.is_match(trimmed.as_str()) {
                LineKind::Start
            } else if end.is_match(trimmed.as_str()) {
                LineKind::End
            } else {
                LineKind::Other
            };
            kinds.push(kind);
            proof {
                assert(lines(sql@)[i as int] == line);
                lines(sql@).lemma_map_take_succ(line_kind(), i as int);
            }
            i += 1;
        }
        assert(lines(sql@).take(lines(sql@).len() as int) =~= lines(sql@));
        match find_blocks(&kinds) {
            Ok(ranges) => Ok(ranges),
            Err(err) => Err(DieselGuardError::parse_error(err.message().as_str())),
        }
    }

    /// Parse whole-migration check disable directives.
    ///
    /// Directives are comma-separated and apply to the entire SQL string:
    /// `-- diesel-guard:disable AddColumnCheck, DropColumnCheck`
    pub fn parse_disabled_checks(sql: &str) -> (r: Vec<String>)
        ensures
            string_views(r@) == disabled_checks_of(sql@),
    {
        let all = split_lines(sql);
        let directive = Pattern::new(DISABLE_CHECKS_DIRECTIVE);
        let mut r: Vec<String> = Vec::new();
        let mut i: usize = 0;
        assert(string_views(r@) =~= lines(sql@).take(0).flat_map(disabled_on()));
        while i < all.len()
            invariant
                i <= all.len(),
                directive@ == DISABLE_CHECKS_DIRECTIVE@,
                string_views(all@) == lines(sql@),
                string_views(r@) == lines(sql@).take(i as int).flat_map(disabled_on()),
            decreases all.len() - i,
        {
            let ghost before = r@;
            proof {
                assert(lines(sql@)[i as int] == all@[i as int]@);
                lines(sql@).lemma_flat_map_take_append(disabled_on(), i as int);
            }
            if let Some(mut names) = Self::names_on_line(&directive, all[i].as_str()) {
                let ghost added = names@;
                r.append(&mut names);
                assert(string_views(r@) =~= string_views(before) + string_views(added));
            } else {
                assert(string_views(r@) =~= string_views(before) + Seq::<Seq<char>>::empty());
            }
            i += 1;
        }
        assert(lines(sql@).take(lines(sql@).len() as int) =~= lines(sql@));
        r
    }

    /// Check if line is a start directive
    pub fn is_start_directive(line: &str) -> (r: bool)
        ensures
            r == regex_is_match(START_DIRECTIVE@, line@),
    {
        Pattern::new(START_DIRECTIVE).is_match(line)
    }

    /// Check if line is an end directive
    pub fn is_end_directive(line: &str) -> (r: bool)
        ensures
            r == regex_is_match(END_DIRECTIVE@, line@),
    {
        Pattern::new(END_DIRECTIVE).is_match(line)
    }

    /// The names that a line disables, if it disables any.
    pub fn parse_disabled_checks_line(line: &str) -> (r: Option<Vec<String>>)
        ensures
            r matches Some(names) ==> names@.len() > 0 && string_views(names@) == disabled_on()(
                line@,
            ),
            r is None ==> disabled_on()(line@).len() == 0,
    {
        Self::names_on_line(&Pattern::new(DISABLE_CHECKS_DIRECTIVE), line)
    }

    fn names_on_line(directive: &Pattern, line: &str) -> (r: Option<Vec<String>>)
        requires
            directive@ == DISABLE_CHECKS_DIRECTIVE@,
        ensures
            r matches Some(names) ==> names@.len() > 0 && string_views(names@) == disabled_on()(
                line@,
            ),
            r is None ==> disabled_on()(line@).len() == 0,
    {
        let trimmed = trim_text(line);
        if trimmed.as_str().is_empty() {
            return None;
        }
        let Some(captured) = directive.capture(trimmed.as_str(), 1) else {
            return None;
        };
        let checks = split_fields(captured.as_str(), ',');
        let ghost all = string_views(checks@);
        if checks.len() == 0 {
            assert(all.len() == 0);
            None
        } else {
            Some(checks)
        }
    }
}

// ---------------------------------------------------------------------------
// Laws
// ---------------------------------------------------------------------------

/// Whether ranges stand one after the other, none of them touching the next.
pub open spec fn in_order(ranges: Seq<IgnoreRange>) -> bool {
    &&& forall|i: int| 0 <= i < ranges.len() ==> (#[trigger] ranges[i]).start_line < ranges[i].end_line
    &&& forall|i: int, j: int|
        0 <= i < j < ranges.len() ==> (#[trigger] ranges[i]).end_line < (
        #[trigger] ranges[j]).start_line
}

/// Whether a line is inside one of the ranges, its directives included.
pub open spec fn within(ranges: Seq<IgnoreRange>, line: int) -> bool {
    exists|i: int|
        0 <= i < ranges.len() && (#[trigger] ranges[i]).start_line <= line <= ranges[i].end_line
}

/// Whether a range reaches from a start directive to the next end directive.
pub open spec fn is_block(kinds: Seq<LineKind>, range: IgnoreRange) -> bool {
    &&& 1 <= range.start_line < range.end_line <= kinds.len()
    &&& kinds[range.start_line - 1] == LineKind::Start
    &&& kinds[range.end_line - 1] == LineKind::End
    &&& forall|l: int|
        range.start_line < l < range.end_line ==> #[trigger] kinds[l - 1] == LineKind::Other
}

/// Whether a line opens a block that reaches to the end.
spec fn is_open(kinds: Seq<LineKind>, line: int) -> bool {
    &&& 1 <= line <= kinds.len()
    &&& kinds[line - 1] == LineKind::Start
    &&& forall|l: int| line < l <= kinds.len() ==> #[trigger] kinds[l - 1] == LineKind::Other
}

/// Whether every directive belongs to a range or opens the last block.
spec fn accounts_for(kinds: Seq<LineKind>, p: Progress) -> bool {
    forall|l: int|
        1 <= l <= kinds.len() && #[trigger] kinds[l - 1] != LineKind::Other ==> within(p.ranges, l)
            || p.open == Some(l as usize)
}

/// What holds of the progress after some lines.
spec fn consistent(kinds: Seq<LineKind>, p: Progress) -> bool {
    &&& in_order(p.ranges)
    &&& forall|i: int| 0 <= i < p.ranges.len() ==> is_block(kinds, #[trigger] p.ranges[i])
    &&& p.open matches Some(line) ==> {
        &&& is_open(kinds, line as int)
        &&& forall|i: int| 0 <= i < p.ranges.len() ==> (#[trigger] p.ranges[i]).end_line < line
    }
    &&& accounts_for(kinds, p)
}

proof fn lemma_block_stays(rest: Seq<LineKind>, kind: LineKind, range: IgnoreRange)
    requires
        is_block(rest, range),
    ensures
        is_block(rest.push(kind), range),
{
    assert forall|l: int| range.start_line < l < range.end_line implies #[trigger] rest.push(
        kind,
    )[l - 1] == LineKind::Other by {
        assert(rest[l - 1] == LineKind::Other);
    }
}

proof fn lemma_blocks_stay(rest: Seq<LineKind>, kind: LineKind, ranges: Seq<IgnoreRange>)
    requires
        forall|i: int| 0 <= i < ranges.len() ==> is_block(rest, #[trigger] ranges[i]),
    ensures
        forall|i: int| 0 <= i < ranges.len() ==> is_block(rest.push(kind), #[trigger] ranges[i]),
{
    assert forall|i: int| 0 <= i < ranges.len() implies is_block(
        rest.push(kind),
        #[trigger] ranges[i],
    ) by {
        lemma_block_stays(rest, kind, ranges[i]);
    }
}

proof fn lemma_other_line(rest: Seq<LineKind>, p: Progress)
    requires
        consistent(rest, p),
    ensures
        consistent(rest.push(LineKind::Other), p),
{
    let kinds = rest.push(LineKind::Other);
    lemma_blocks_stay(rest, LineKind::Other, p.ranges);
    if let Some(line) = p.open {
        assert forall|l: int| line < l <= kinds.len() implies #[trigger] kinds[l - 1]
            == LineKind::Other by {
            if l <= rest.len() {
                assert(rest[l - 1] == LineKind::Other);
            }
        }
        assert(rest[line - 1] == LineKind::Start);
        assert(is_open(kinds, line as int));
    }
    assert forall|l: int|
        1 <= l <= kinds.len() && #[trigger] kinds[l - 1] != LineKind::Other implies within(
        p.ranges,
        l,
    ) || p.open == Some(l as usize) by {
        assert(rest[l - 1] != LineKind::Other);
    }
}

proof fn lemma_start_line(rest: Seq<LineKind>, p: Progress)
    requires
        consistent(rest, p),
        p.open is None,
        rest.len() < usize::MAX,
    ensures
        consistent(
            rest.push(LineKind::Start),
            Progress { ranges: p.ranges, open: Some((rest.len() + 1) as usize) },
        ),
{
    let kinds = rest.push(LineKind::Start);
    let after = Progress { ranges: p.ranges, open: Some((rest.len() + 1) as usize) };
    lemma_blocks_stay(rest, LineKind::Start, p.ranges);
    assert(is_open(kinds, kinds.len() as int));
    assert forall|i: int| 0 <= i < p.ranges.len() implies (#[trigger] p.ranges[i]).end_line
        < kinds.len() by {
        assert(is_block(rest, p.ranges[i]));
    }
    assert forall|l: int|
        1 <= l <= kinds.len() && #[trigger] kinds[l - 1] != LineKind::Other implies within(
        after.ranges,
        l,
    ) || after.open == Some(l as usize) by {
        if l <= rest.len() {
            assert(rest[l - 1] != LineKind::Other);
        }
    }
}

proof fn lemma_end_line(rest: Seq<LineKind>, p: Progress, start_line: usize)
    requires
        consistent(rest, p),
        p.open == Some(start_line),
        rest.len() < usize::MAX,
    ensures
        consistent(
            rest.push(LineKind::End),
            Progress {
                ranges: p.ranges.push(
                    IgnoreRange { start_line, end_line: (rest.len() + 1) as usize },
                ),
                open: None,
            },
        ),
{
    let kinds = rest.push(LineKind::End);
    let range = IgnoreRange { start_line, end_line: (rest.len() + 1) as usize };
    let ranges = p.ranges.push(range);
    let n = p.ranges.len() as int;
    lemma_blocks_stay(rest, LineKind::End, p.ranges);
    assert(is_block(kinds, range)) by {
        assert(is_open(rest, start_line as int));
        assert(rest[start_line - 1] == LineKind::Start);
        assert forall|l: int| range.start_line < l < range.end_line implies #[trigger] kinds[l - 1]
            == LineKind::Other by {
            assert(rest[l - 1] == LineKind::Other);
        }
    }
    assert(in_order(ranges)) by {
        assert forall|i: int, j: int| 0 <= i < j < ranges.len() implies (
        #[trigger] ranges[i]).end_line < (#[trigger] ranges[j]).start_line by {
            if j == n {
                assert(p.ranges[i].end_line < start_line);
            } else {
                assert(p.ranges[i].end_line < p.ranges[j].start_line);
            }
        }
        assert forall|i: int| 0 <= i < ranges.len() implies (#[trigger] ranges[i]).start_line
            < ranges[i].end_line by {
            assert(is_block(kinds, ranges[i]));
        }
    }
    assert forall|l: int|
        1 <= l <= kinds.len() && #[trigger] kinds[l - 1] != LineKind::Other implies within(
        ranges,
        l,
    ) by {
        if l <= rest.len() {
            assert(rest[l - 1] != LineKind::Other);
            if within(p.ranges, l) {
                let i = choose|i: int|
                    0 <= i < p.ranges.len() && (#[trigger] p.ranges[i]).start_line <= l
                        <= p.ranges[i].end_line;
                assert(ranges[i] == p.ranges[i]);
            } else {
                assert(ranges[n].start_line == l);
            }
        } else {
            assert(ranges[n].end_line == l);
        }
    }
}

proof fn lemma_progress_consistent(kinds: Seq<LineKind>)
    requires
        kinds.len() <= usize::MAX,
    ensures
        progress(kinds) matches Ok(p) ==> consistent(kinds, p),
    decreases kinds.len(),
{
    if kinds.len() > 0 {
        let rest = kinds.drop_last();
        lemma_progress_consistent(rest);
        assert(kinds =~= rest.push(kinds.last()));
        if let Ok(before) = progress(rest) {
            match (kinds.last(), before.open) {
                (LineKind::Other, _) => {
                    lemma_other_line(rest, before);
                },
                (LineKind::Start, None) => {
                    lemma_start_line(rest, before);
                },
                (LineKind::End, Some(start_line)) => {
                    lemma_end_line(rest, before, start_line);
                },
                _ => {},
            }
        }
    }
}

/// The blocks of a text stand one after the other. Each one reaches from a start directive to the
/// next end directive, with no directive in between, and every directive belongs to a block.
pub proof fn law_blocks_pair_up(kinds: Seq<LineKind>)
    requires
        kinds.len() <= usize::MAX,
    ensures
        blocks(kinds) matches Ok(ranges) ==> {
            &&& in_order(ranges)
            &&& forall|i: int| 0 <= i < ranges.len() ==> is_block(kinds, #[trigger] ranges[i])
            &&& forall|l: int|
                1 <= l <= kinds.len() && #[trigger] kinds[l - 1] != LineKind::Other ==> within(
                    ranges,
                    l,
                )
        },
{
    lemma_progress_consistent(kinds);
}

/// Whether a start directive on one line and an end directive on another enclose no directive.
pub open spec fn enclose(kinds: Seq<LineKind>, start: int, end: int) -> bool {
    &&& 1 <= start < end <= kinds.len()
    &&& kinds[start - 1] == LineKind::Start
    &&& kinds[end - 1] == LineKind::End
    &&& forall|l: int| start < l < end ==> #[trigger] kinds[l - 1] == LineKind::Other
}

proof fn lemma_enclosing_directives(kinds: Seq<LineKind>, ranges: Seq<IgnoreRange>, s: int, e: int)
    requires
        forall|i: int| 0 <= i < ranges.len() ==> is_block(kinds, #[trigger] ranges[i]),
        within(ranges, s),
        enclose(kinds, s, e),
    ensures
        exists|i: int|
            0 <= i < ranges.len() && (#[trigger] ranges[i]).start_line == s && ranges[i].end_line
                == e,
{
    let i = choose|i: int|
        0 <= i < ranges.len() && (#[trigger] ranges[i]).start_line <= s <= ranges[i].end_line;
    let range = ranges[i];
    assert(is_block(kinds, range));
    assert(kinds[s - 1] == LineKind::Start);
    assert(range.start_line == s);
    assert(range.end_line == e) by {
        assert(kinds[range.end_line - 1] == LineKind::End);
        assert(kinds[e - 1] == LineKind::End);
    }
}

/// The blocks of an accepted text are exactly the start directives with the next end directive: a
/// line lies inside a block if and only if it lies strictly between two such directives.
pub proof fn law_blocks_lie_between_their_directives(
    kinds: Seq<LineKind>,
    ranges: Seq<IgnoreRange>,
    line: int,
)
    requires
        kinds.len() <= usize::MAX,
        blocks(kinds) == Ok::<Seq<IgnoreRange>, BlockError>(ranges),
    ensures
        (exists|i: int|
            0 <= i < ranges.len() && (#[trigger] ranges[i]).start_line < line < ranges[i].end_line)
            <==> (exists|s: int, e: int| s < line < e && #[trigger] enclose(kinds, s, e)),
{
    law_blocks_pair_up(kinds);
    if exists|i: int|
        0 <= i < ranges.len() && (#[trigger] ranges[i]).start_line < line < ranges[i].end_line {
        let i = choose|i: int|
            0 <= i < ranges.len() && (#[trigger] ranges[i]).start_line < line < ranges[i].end_line;
        assert(is_block(kinds, ranges[i]));
        assert(enclose(kinds, ranges[i].start_line as int, ranges[i].end_line as int));
    }
    if exists|s: int, e: int| s < line < e && #[trigger] enclose(kinds, s, e) {
        let (s, e) = choose|s: int, e: int| s < line < e && #[trigger] enclose(kinds, s, e);
        assert(kinds[s - 1] != LineKind::Other);
        lemma_enclosing_directives(kinds, ranges, s, e);
    }
}

/// A text is refused only for a directive that is at fault, and the error names its line: a start
/// directive inside a block, an end directive outside of one, or a start directive after which no
/// other directive comes.
pub proof fn law_refusals_name_the_directive_at_fault(kinds: Seq<LineKind>)
    requires
        kinds.len() <= usize::MAX,
    ensures
        match blocks(kinds) {
            Ok(_) => true,
            Err(BlockError::Nested(line)) => {
                &&& 1 <= line <= kinds.len()
                &&& kinds[line - 1] == LineKind::Start
                &&& exists|s: int|
                    1 <= s < line && #[trigger] kinds[s - 1] == LineKind::Start && forall|l: int|
                        s < l < line ==> #[trigger] kinds[l - 1] == LineKind::Other
            },
            Err(BlockError::Unmatched(line)) => {
                &&& 1 <= line <= kinds.len()
                &&& kinds[line - 1] == LineKind::End
                &&& forall|s: int|
                    1 <= s < line && #[trigger] kinds[s - 1] == LineKind::Start ==> exists|e: int|
                        s < e < line && #[trigger] kinds[e - 1] == LineKind::End
            },
            Err(BlockError::Unclosed(line)) => {
                &&& 1 <= line <= kinds.len()
                &&& kinds[line - 1] == LineKind::Start
                &&& forall|l: int|
                    line < l <= kinds.len() ==> #[trigger] kinds[l - 1] == LineKind::Other
            },
        },
{
    lemma_progress_consistent(kinds);
    lemma_progress_fault(kinds);
}

proof fn lemma_progress_fault(kinds: Seq<LineKind>)
    requires
        kinds.len() <= usize::MAX,
    ensures
        match progress(kinds) {
            Ok(_) => true,
            Err(BlockError::Nested(line)) => {
                &&& 1 <= line <= kinds.len()
                &&& kinds[line - 1] == LineKind::Start
                &&& exists|s: int|
                    1 <= s < line && #[trigger] kinds[s - 1] == LineKind::Start && forall|l: int|
                        s < l < line ==> #[trigger] kinds[l - 1] == LineKind::Other
            },
            Err(BlockError::Unmatched(line)) => {
                &&& 1 <= line <= kinds.len()
                &&& kinds[line - 1] == LineKind::End
                &&& forall|s: int|
                    1 <= s < line && #[trigger] kinds[s - 1] == LineKind::Start ==> exists|e: int|
                        s < e < line && #[trigger] kinds[e - 1] == LineKind::End
            },
            Err(BlockError::Unclosed(_)) => false,
        },
    decreases kinds.len(),
{
    if kinds.len() > 0 {
        let rest = kinds.drop_last();
        lemma_progress_consistent(rest);
        lemma_progress_fault(rest);
        assert forall|l: int| 1 <= l < kinds.len() implies #[trigger] rest[l - 1] == kinds[
            l - 1] by {}
        match progress(rest) {
            Ok(before) => match (kinds.last(), before.open) {
                (LineKind::Start, Some(line)) => {
                    assert(is_open(rest, line as int));
                    assert(kinds[line - 1] == LineKind::Start);
                    assert forall|l: int| line < l < kinds.len() implies #[trigger] kinds[l - 1]
                        == LineKind::Other by {
                        assert(rest[l - 1] == LineKind::Other);
                    }
                },
                (LineKind::End, None) => {
                    assert forall|s: int|
                        1 <= s < kinds.len() && #[trigger] kinds[s - 1]
                            == LineKind::Start implies exists|e: int|
                        s < e < kinds.len() && #[trigger] kinds[e - 1] == LineKind::End by {
                        assert(rest[s - 1] != LineKind::Other);
                        let i = choose|i: int|
                            0 <= i < before.ranges.len() && (
                            #[trigger] before.ranges[i]).start_line <= s
                                <= before.ranges[i].end_line;
                        assert(is_block(rest, before.ranges[i]));
                        assert(rest[before.ranges[i].end_line - 1] == LineKind::End);
                        assert(kinds[before.ranges[i].end_line - 1] == LineKind::End);
                    }
                },
                _ => {},
            },
            Err(BlockError::Nested(line)) => {
                let s = choose|s: int|
                    1 <= s < line && #[trigger] rest[s - 1] == LineKind::Start && forall|l: int|
                        s < l < line ==> #[trigger] rest[l - 1] == LineKind::Other;
                assert(kinds[s - 1] == LineKind::Start);
                assert forall|l: int| s < l < line implies #[trigger] kinds[l - 1]
                    == LineKind::Other by {
                    assert(rest[l - 1] == LineKind::Other);
                }
            },
            Err(BlockError::Unmatched(line)) => {
                assert(rest[line - 1] == kinds[line - 1]);
                assert forall|s: int|
                    1 <= s < line && #[trigger] kinds[s - 1] == LineKind::Start implies exists|
                    e: int,
                | s < e < line && #[trigger] kinds[e - 1] == LineKind::End by {
                    assert(rest[s - 1] == LineKind::Start);
                    let e = choose|e: int|
                        s < e < line && #[trigger] rest[e - 1] == LineKind::End;
                    assert(kinds[e - 1] == LineKind::End);
                }
            },
            Err(BlockError::Unclosed(_)) => {},
        }
    }
}

/// A line is a start directive if it matches the pattern of start directives once white space around
/// it is gone, an end directive if it matches the pattern of end directives instead, and otherwise
/// none. There is one kind for each line.
pub proof fn law_directives_are_found_line_by_line(sql: Seq<char>, i: int)
    requires
        0 <= i < lines(sql).len(),
    ensures
        line_kinds(sql).len() == lines(sql).len(),
        line_kinds(sql)[i] == LineKind::Start <==> regex_is_match(
            r"(?i)^\s*--\s*safety-assured:start\s*$"@,
            trim(lines(sql)[i]),
        ),
        line_kinds(sql)[i] == LineKind::End <==> !regex_is_match(
            r"(?i)^\s*--\s*safety-assured:start\s*$"@,
            trim(lines(sql)[i]),
        ) && regex_is_match(r"(?i)^\s*--\s*safety-assured:end\s*$"@, trim(lines(sql)[i])),
{
}

/// The names that a text disables are those that its lines disable, line by line: what the directive
/// captures, cut at commas.
pub proof fn law_directives_disable_what_they_name(sql: Seq<char>, name: Seq<char>)
    ensures
        disabled_checks_of(sql).contains(name) <==> exists|i: int|
            0 <= i < lines(sql).len() && trim(#[trigger] lines(sql)[i]).len() > 0 && (regex_capture(
                r"(?i)^\s*--\s*diesel-guard:disable\s+(.+?)\s*$"@,
                trim(lines(sql)[i]),
                1,
            ) matches Some(names) && fields(names, ',').contains(name)),
{
    lemma_disabled(lines(sql), name);
}

proof fn lemma_disabled(all: Seq<Seq<char>>, name: Seq<char>)
    ensures
        all.flat_map(disabled_on()).contains(name) <==> exists|i: int|
            0 <= i < all.len() && disabled_on()(#[trigger] all[i]).contains(name),
    decreases all.len(),
{
    let f = disabled_on();
    if all.len() == 0 {
        assert(all.flat_map(f) =~= Seq::<Seq<char>>::empty());
    } else {
        let rest = all.drop_last();
        lemma_disabled(rest, name);
        assert(rest.push(all.last()) =~= all);
        rest.lemma_flat_map_push(f, all.last());
        let before = rest.flat_map(f);
        let last = f(all.last());
        if (before + last).contains(name) {
            let k = (before + last).index_of(name);
            if k < before.len() {
                assert(before[k] == name);
                let i = choose|i: int| 0 <= i < rest.len() && f(#[trigger] rest[i]).contains(name);
                assert(all[i] == rest[i]);
            } else {
                assert(last[k - before.len()] == name);
                assert(f(all[all.len() - 1]).contains(name));
            }
        }
        if exists|i: int| 0 <= i < all.len() && f(#[trigger] all[i]).contains(name) {
            let i = choose|i: int| 0 <= i < all.len() && f(#[trigger] all[i]).contains(name);
            if i < rest.len() {
                assert(rest[i] == all[i]);
                let k = before.index_of(name);
                assert((before + last)[k] == name);
            } else {
                let k = last.index_of(name);
                assert((before + last)[before.len() + k] == name);
            }
        }
    }
}

/// Directives that are missing or doubled are never passed over: a text with more of one kind than
/// of the other is refused.
pub proof fn law_unbalanced_directives_are_refused(kinds: Seq<LineKind>)
    requires
        kinds.len() <= usize::MAX,
        kinds.filter(|k: LineKind| k == LineKind::Start).len() != kinds.filter(
            |k: LineKind| k == LineKind::End,
        ).len(),
    ensures
        blocks(kinds) is Err,
{
    lemma_directive_counts(kinds);
}

proof fn lemma_directive_counts(kinds: Seq<LineKind>)
    ensures
        progress(kinds) matches Ok(p) ==> {
            let starts = kinds.filter(|k: LineKind| k == LineKind::Start).len();
            let ends = kinds.filter(|k: LineKind| k == LineKind::End).len();
            starts == ends + (if p.open is Some {
                1int
            } else {
                0int
            })
        },
    decreases kinds.len(),
{
    reveal(Seq::filter);
    if kinds.len() > 0 {
        lemma_directive_counts(kinds.drop_last());
    }
}

/// A range, a number of lines further down.
pub open spec fn moved(k: nat) -> spec_fn(IgnoreRange) -> IgnoreRange {
    |range: IgnoreRange|
        IgnoreRange {
            start_line: (range.start_line + k) as usize,
            end_line: (range.end_line + k) as usize,
        }
}

/// An error, a number of lines further down.
pub open spec fn moved_error(err: BlockError, k: nat) -> BlockError {
    match err {
        BlockError::Nested(line) => BlockError::Nested((line + k) as usize),
        BlockError::Unmatched(line) => BlockError::Unmatched((line + k) as usize),
        BlockError::Unclosed(line) => BlockError::Unclosed((line + k) as usize),
    }
}

proof fn lemma_no_directive(kinds: Seq<LineKind>)
    requires
        forall|i: int| 0 <= i < kinds.len() ==> #[trigger] kinds[i] == LineKind::Other,
    ensures
        progress(kinds) == Ok::<Progress, BlockError>(
            Progress { ranges: Seq::empty(), open: None },
        ),
    decreases kinds.len(),
{
    if kinds.len() > 0 {
        lemma_no_directive(kinds.drop_last());
        assert(kinds[kinds.len() - 1] == LineKind::Other);
    }
}

proof fn lemma_moved(before: Seq<LineKind>, kinds: Seq<LineKind>)
    requires
        forall|i: int| 0 <= i < before.len() ==> #[trigger] before[i] == LineKind::Other,
        before.len() + kinds.len() <= usize::MAX,
    ensures
        progress(before + kinds) == match progress(kinds) {
            Ok(p) => Ok::<Progress, BlockError>(
                Progress {
                    ranges: p.ranges.map_values(moved(before.len())),
                    open: match p.open {
                        Some(line) => Some((line + before.len()) as usize),
                        None => None,
                    },
                },
            ),
            Err(err) => Err(moved_error(err, before.len())),
        },
    decreases kinds.len(),
{
    if kinds.len() == 0 {
        assert(before + kinds =~= before);
        lemma_no_directive(before);
        assert(Seq::<IgnoreRange>::empty().map_values(moved(before.len())) =~= Seq::<
            IgnoreRange,
        >::empty());
    } else {
        let all = before + kinds;
        assert(all.drop_last() =~= before + kinds.drop_last());
        assert(all.last() == kinds.last());
        lemma_moved(before, kinds.drop_last());
        if let Ok(p) = progress(kinds.drop_last()) {
            if let Some(start_line) = p.open {
                let range = IgnoreRange { start_line, end_line: kinds.len() as usize };
                assert(p.ranges.push(range).map_values(moved(before.len())) =~= p.ranges.map_values(
                    moved(before.len()),
                ).push(moved(before.len())(range)));
            }
        }
    }
}

/// Lines without directives before a text move its blocks down by their number, and so the line that
/// an error names.
pub proof fn law_lines_before_a_text_move_its_blocks(before: Seq<char>, sql: Seq<char>)
    requires
        before.len() == 0 || before.last() == '\n',
        forall|i: int|
            0 <= i < line_kinds(before).len() ==> #[trigger] line_kinds(before)[i]
                == LineKind::Other,
        lines(before).len() + lines(sql).len() <= usize::MAX,
    ensures
        blocks(line_kinds(before + sql)) == match blocks(line_kinds(sql)) {
            Ok(ranges) => Ok::<Seq<IgnoreRange>, BlockError>(
                ranges.map_values(moved(lines(before).len())),
            ),
            Err(err) => Err(moved_error(err, lines(before).len())),
        },
{
    law_lines_of_joined_texts(before, sql);
    assert(line_kinds(before + sql) =~= line_kinds(before) + line_kinds(sql));
    lemma_moved(line_kinds(before), line_kinds(sql));
}

proof fn lemma_flat_map_concat<A, B>(a: Seq<A>, b: Seq<A>, f: spec_fn(A) -> Seq<B>)
    ensures
        (a + b).flat_map(f) == a.flat_map(f) + b.flat_map(f),
    decreases b.len(),
{
    if b.len() == 0 {
        assert(a + b =~= a);
        assert(a.flat_map(f) + b.flat_map(f) =~= a.flat_map(f));
    } else {
        let rest = b.drop_last();
        lemma_flat_map_concat(a, rest, f);
        (a + rest).lemma_flat_map_push(f, b.last());
        rest.lemma_flat_map_push(f, b.last());
        assert((a + rest).push(b.last()) =~= a + b);
        assert(rest.push(b.last()) =~= b);
        assert(a.flat_map(f) + rest.flat_map(f) + f(b.last()) =~= a.flat_map(f) + (rest.flat_map(f)
            + f(b.last())));
    }
}

proof fn lemma_line_feed_disables_nothing(a: Seq<char>)
    ensures
        disabled_checks_of(a.push('\n')) == disabled_checks_of(a),
{
    let f = disabled_on();
    let open = lines(a);
    let closed = lines(a.push('\n'));
    law_line_feed_closes_the_last_line(a, 0);
    let kept = closed.take(open.len() as int);
    assert(kept.map_values(f) =~= open.map_values(f)) by {
        assert forall|i: int| 0 <= i < open.len() implies f(#[trigger] kept[i]) == f(open[i]) by {
            assert(trim(closed[i]) == trim(open[i]));
        }
    }
    if closed.len() == open.len() {
        assert(kept =~= closed);
    } else {
        assert(closed =~= kept.push(closed.last()));
        kept.lemma_flat_map_push(f, closed.last());
        assert(f(closed.last()) =~= Seq::<Seq<char>>::empty());
        assert(kept.flat_map(f) + Seq::<Seq<char>>::empty() =~= kept.flat_map(f));
    }
}

/// A directive counts wherever it stands: two texts joined by a line feed disable what the first
/// disables, then what the second does.
pub proof fn law_joined_texts_disable_in_turn(a: Seq<char>, b: Seq<char>)
    ensures
        disabled_checks_of(a + seq!['\n'] + b) == disabled_checks_of(a) + disabled_checks_of(b),
{
    assert(a + seq!['\n'] =~= a.push('\n'));
    law_lines_of_joined_texts(a.push('\n'), b);
    lemma_flat_map_concat(lines(a.push('\n')), lines(b), disabled_on());
    lemma_line_feed_disables_nothing(a);
}

/// The error about a directive says what is wrong with it and on which line it stands.
pub proof fn law_errors_tell_the_line(line: usize)
    ensures
        BlockError::Nested(line).text() == "Nested 'safety-assured:start' at line "@ + decimal(
            line as nat,
        )
            + ". Nested blocks are not supported. Close the previous block before starting a new one."@,
        BlockError::Unmatched(line).text() == "Unmatched 'safety-assured:end' at line "@ + decimal(
            line as nat,
        )
            + ". Each 'safety-assured:end' must have a matching 'safety-assured:start' before it."@,
        BlockError::Unclosed(line).text() == "Unclosed 'safety-assured:start' at line "@ + decimal(
            line as nat,
        ) + ". Did you forget to add 'safety-assured:end'?"@,
{
    let number = decimal(line as nat);
    reveal_strlit(
        "Nested 'safety-assured:start' at line {0}. Nested blocks are not supported. Close the previous block before starting a new one.",
    );
    reveal_strlit("Nested 'safety-assured:start' at line ");
    reveal_strlit(
        ". Nested blocks are not supported. Close the previous block before starting a new one.",
    );
    lemma_one_hole(
        NESTED_TEXT@,
        "Nested 'safety-assured:start' at line "@,
        ". Nested blocks are not supported. Close the previous block before starting a new one."@,
        number,
    );
    reveal_strlit(
        "Unmatched 'safety-assured:end' at line {0}. Each 'safety-assured:end' must have a matching 'safety-assured:start' before it.",
    );
    reveal_strlit("Unmatched 'safety-assured:end' at line ");
    reveal_strlit(
        ". Each 'safety-assured:end' must have a matching 'safety-assured:start' before it.",
    );
    lemma_one_hole(
        UNMATCHED_TEXT@,
        "Unmatched 'safety-assured:end' at line "@,
        ". Each 'safety-assured:end' must have a matching 'safety-assured:start' before it."@,
        number,
    );
    reveal_strlit(
        "Unclosed 'safety-assured:start' at line {0}. Did you forget to add 'safety-assured:end'?",
    );
    reveal_strlit("Unclosed 'safety-assured:start' at line ");
    reveal_strlit(". Did you forget to add 'safety-assured:end'?");
    lemma_one_hole(
        UNCLOSED_TEXT@,
        "Unclosed 'safety-assured:start' at line "@,
        ". Did you forget to add 'safety-assured:end'?"@,
        number,
    );
}

proof fn lemma_one_hole(
    template: Seq<char>,
    before: Seq<char>,
    after: Seq<char>,
    text: Seq<char>,
)
    requires
        template =~= before + (seq!['{', '0', '}'] + after),
        forall|i: int| 0 <= i < before.len() ==> #[trigger] before[i] != '{',
        forall|i: int| 0 <= i < after.len() ==> #[trigger] after[i] != '{',
    ensures
        fill(template, seq![text]) == before + text + after,
{
    law_holes_are_filled(before, '0', after, seq![text]);
    law_plain_templates_stay(after, seq![text]);
    assert(before + (text + after) =~= before + text + after);
}

/// A line disables the names that its directive captures, in their order; a line without a directive, and
/// a blank one, disables none.
pub proof fn law_a_line_disables_its_names(line: Seq<char>)
    ensures
        disabled_on()(line) == if trim(line).len() > 0 && regex_capture(
            r"(?i)^\s*--\s*diesel-guard:disable\s+(.+?)\s*$"@,
            trim(line),
            1,
        ) is Some {
            fields(regex_capture(r"(?i)^\s*--\s*diesel-guard:disable\s+(.+?)\s*$"@, trim(line), 1)->0, ',')
        } else {
            Seq::<Seq<char>>::empty()
        },
        line.len() > 0 && !line.contains('\n') ==> disabled_checks_of(line) == disabled_on()(line),
{
    if line.len() > 0 && !line.contains('\n') {
        assert forall|i: int| 0 <= i < line.len() implies #[trigger] line[i] != '\n' by {
            assert(line.contains(line[i]));
        }
        law_line_feeds_end_lines(line, Seq::empty());
        seq![line].lemma_flat_map_singleton(disabled_on());
    }
}

} // verus!
