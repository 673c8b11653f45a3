//! Diagnostics: how violations and parse errors are shown in an editor.

use crate::checks::registry::list_views;
use crate::error::DieselGuardError;
use crate::text::laws::{law_holes_are_filled, law_plain_templates_stay};
use crate::text::{
    fill, fill_template, lines, opt_str, opt_text, split_lines, string_views, to_chars, views,
};
use crate::violation::{Severity, ViolationView};
use crate::ViolationList;
use vstd::prelude::*;
use vstd::utf8::{char_is_scalar, encode_scalar, encode_utf8};

verus! {

/// The source that the diagnostics name.
pub const DIAGNOSTIC_SOURCE: &'static str = "diesel-guard";

/// The code of a diagnostic for a parse error.
pub const PARSE_ERROR_CODE: &'static str = "ParseError";

/// A problem with what to do instead.
pub const SAFE_ALTERNATIVE_TEXT: &'static str = "{0} Safe alternative: {1}";

/// A place in a text: a line and a UTF-16 code unit on it, both counted from zero.
#[derive(Debug, Clone, Copy, PartialEq, Eq, Structural)]
pub struct Position {
    pub line: u32,
    pub character: u32,
}

/// A stretch of a text.
#[derive(Debug, Clone, Copy, PartialEq, Eq, Structural)]
pub struct Range {
    pub start: Position,
    pub end: Position,
}

#[derive(Debug, Clone, Copy, PartialEq, Eq, Structural)]
pub enum DiagnosticSeverity {
    Error,
    Warning,
}

/// What an editor shows at a place.
#[derive(Debug, Clone)]
pub struct Diagnostic {
    pub range: Range,
    pub severity: DiagnosticSeverity,
    pub code: Option<String>,
    pub source: String,
    pub message: String,
}

/// All diagnostics of a document; they replace what was shown before.
#[derive(Debug, Clone)]
pub struct DiagnosticEvent {
    pub uri: String,
    pub diagnostics: Vec<Diagnostic>,
    pub version: Option<i32>,
}

/// A change of a document.
#[derive(Debug, Clone)]
pub struct ContentChange {
    /// Whether it replaces only a range of the document.
    pub has_range: bool,
    pub text: String,
}

/// The model of a diagnostic.
pub struct DiagnosticView {
    pub range: Range,
    pub severity: DiagnosticSeverity,
    pub code: Option<Seq<char>>,
    pub source: Seq<char>,
    pub message: Seq<char>,
}

/// The model of the diagnostics of a document.
pub struct EventView {
    pub uri: Seq<char>,
    pub diagnostics: Seq<DiagnosticView>,
    pub version: Option<i32>,
}

impl View for Diagnostic {
    type V = DiagnosticView;

    open spec fn view(&self) -> DiagnosticView {
        DiagnosticView {
            range: self.range,
            severity: self.severity,
            code: opt_text(self.code),
            source: self.source@,
            message: self.message@,
        }
    }
}

/// The models of a list of diagnostics.
pub open spec fn diagnostic_views(diagnostics: Seq<Diagnostic>) -> Seq<DiagnosticView> {
    diagnostics.map_values(|d: Diagnostic| d@)
}

impl View for DiagnosticEvent {
    type V = EventView;

    open spec fn view(&self) -> EventView {
        EventView {
            uri: self.uri@,
            diagnostics: diagnostic_views(self.diagnostics@),
            version: self.version,
        }
    }
}

// ---------------------------------------------------------------------------
// Places
// ---------------------------------------------------------------------------

/// A number, or the largest of its type if it is larger.
pub open spec fn capped(n: nat) -> u32 {
    if n <= u32::MAX {
        n as u32
    } else {
        u32::MAX
    }
}

fn cap(n: usize) -> (r: u32)
    ensures
        r == capped(n as nat),
{
    if n as u64 <= u32::MAX as u64 {
        n as u32
    } else {
        u32::MAX
    }
}

/// The number of UTF-16 code units of a character.
pub open spec fn units(c: char) -> nat {
    if c as u32 >= 0x10000 {
        2
    } else {
        1
    }
}

/// The number of UTF-16 code units of a text.
pub open spec fn utf16_len(s: Seq<char>) -> nat
    decreases s.len(),
{
    if s.len() == 0 {
        0
    } else {
        utf16_len(s.drop_last()) + units(s.last())
    }
}

/// The range of a whole line.
pub open spec fn whole_line(line: u32, text: Seq<char>) -> Range {
    Range {
        start: Position { line, character: 0 },
        end: Position { line, character: capped(utf16_len(text)) },
    }
}

/// The range of a line that is counted from 1. A line past the end has no text, and line zero counts
/// as the first.
pub open spec fn line_range_of(line: nat, text: Seq<Seq<char>>) -> Range {
    let at = if line == 0 {
        0
    } else {
        line - 1
    };
    whole_line(
        capped(at as nat),
        if at < text.len() {
            text[at]
        } else {
            Seq::empty()
        },
    )
}

/// The range of a whole line, as `whole_line` says.
pub fn line_range(line: u32, line_text: &str) -> (r: Range)
    ensures
        r == whole_line(line, line_text@),
{
    let chars = to_chars(line_text);
    let mut count: u32 = 0;
    let mut i: usize = 0;
    assert(line_text@.take(0) =~= Seq::<char>::empty());
    while i < chars.len()
        invariant
            i <= chars.len(),
            chars@ == line_text@,
            count == capped(utf16_len(line_text@.take(i as int))),
        decreases chars.len() - i,
    {
        assert(line_text@.take(i + 1).drop_last() =~= line_text@.take(i as int));
        let step: u32 = if chars[i] as u32 >= 0x10000 {
            2
        } else {
            1
        };
        if count <= u32::MAX - step {
            count += step;
        } else {
            count = u32::MAX;
        }
        i += 1;
    }
    assert(line_text@.take(i as int) =~= line_text@);
    Range {
        start: Position { line, character: 0 },
        end: Position { line, character: count },
    }
}

/// The range of a line among the lines of a text, as `line_range_of` says.
pub fn diagnostic_range(line: usize, lines: &Vec<String>) -> (r: Range)
    ensures
        r == line_range_of(line as nat, string_views(lines@)),
{
    let at: usize = if line == 0 {
        0
    } else {
        line - 1
    };
    if at < lines.len() {
        assert(string_views(lines@)[at as int] == lines@[at as int]@);
        line_range(cap(at), lines[at].as_str())
    } else {
        let none = String::new();
        assert(none@ =~= Seq::<char>::empty());
        line_range(cap(at), none.as_str())
    }
}

/// How many characters of a text start before a byte offset.
pub open spec fn chars_before(s: Seq<char>, offset: nat) -> nat
    decreases s.len(),
{
    let width = encode_scalar(s[0] as u32).len();
    if s.len() == 0 || offset == 0 {
        0
    } else if offset <= width {
        1
    } else {
        1 + chars_before(s.drop_first(), (offset - width) as nat)
    }
}

/// The number of line breaks in a text.
pub open spec fn line_breaks(s: Seq<char>) -> nat
    decreases s.len(),
{
    if s.len() == 0 {
        0
    } else {
        line_breaks(s.drop_last()) + (if s.last() == '\n' {
            1nat
        } else {
            0nat
        })
    }
}

/// The number of UTF-16 code units since the last line break of a text.
pub open spec fn column(s: Seq<char>) -> nat
    decreases s.len(),
{
    if s.len() == 0 || s.last() == '\n' {
        0
    } else {
        column(s.drop_last()) + units(s.last())
    }
}

/// The place where a text ends.
pub open spec fn end_of(s: Seq<char>) -> Position {
    Position { line: capped(line_breaks(s)), character: capped(column(s)) }
}

/// The place of a byte offset: where the characters that start before it end.
pub open spec fn position_of(s: Seq<char>, offset: nat) -> Position {
    end_of(s.take(chars_before(s, offset) as int))
}

/// The place of a byte offset, as `position_of` says.
pub fn byte_offset_to_position(text: &str, offset: usize) -> (r: Position)
    ensures
        r == position_of(text@, offset as nat),
{
    let chars = to_chars(text);
    let mut line: u32 = 0;
    let mut character: u32 = 0;
    let mut left: usize = offset;
    let mut i: usize = 0;
    assert(text@.skip(0) =~= text@);
    assert(text@.take(0) =~= Seq::<char>::empty());
    while i < chars.len() && left > 0
        invariant
            i <= chars.len(),
            chars@ == text@,
            chars_before(text@, offset as nat) == i + chars_before(
                text@.skip(i as int),
                left as nat,
            ),
            line == capped(line_breaks(text@.take(i as int))),
            character == capped(column(text@.take(i as int))),
        decreases chars.len() - i,
    {
        let c = chars[i];
        proof {
            char_is_scalar(c);
            assert(text@.skip(i as int)[0] == c);
            assert(text@.skip(i as int).drop_first() =~= text@.skip(i + 1));
            assert(text@.take(i + 1).drop_last() =~= text@.take(i as int));
            assert(text@.take(i + 1).last() == c);
        }
        let width: usize = if (c as u32) < 0x80 {
            1
        } else if (c as u32) < 0x800 {
            2
        } else if (c as u32) < 0x10000 {
            3
        } else {
            4
        };
        assert(width == encode_scalar(c as u32).len());
        if c == '\n' {
            if line < u32::MAX {
                line += 1;
            }
            character = 0;
        } else {
            let step: u32 = if c as u32 >= 0x10000 {
                2
            } else {
                1
            };
            if character <= u32::MAX - step {
                character += step;
            } else {
                character = u32::MAX;
            }
        }
        if left > width {
            left -= width;
        } else {
            left = 0;
        }
        i += 1;
    }
    Position { line, character }
}

// ---------------------------------------------------------------------------
// Diagnostics
// ---------------------------------------------------------------------------

/// The severity of a diagnostic for a violation.
pub open spec fn severity_of(severity: Severity) -> DiagnosticSeverity {
    match severity {
        Severity::Error => DiagnosticSeverity::Error,
        Severity::Warning => DiagnosticSeverity::Warning,
    }
}

/// The severity of a diagnostic for a violation, as `severity_of` says.
pub fn diagnostic_severity(severity: Severity) -> (r: DiagnosticSeverity)
    ensures
        r == severity_of(severity),
{
    match severity {
        Severity::Error => DiagnosticSeverity::Error,
        Severity::Warning => DiagnosticSeverity::Warning,
    }
}

/// The code of a diagnostic: the check's name, if it has one.
pub fn diagnostic_code(check_name: &str) -> (r: Option<String>)
    ensures
        opt_text(r) == if check_name@.len() == 0 {
            None
        } else {
            Some(check_name@)
        },
{
    if check_name.is_empty() {
        None
    } else {
        Some(check_name.to_string())
    }
}

/// The message of a diagnostic: the problem, and what to do instead if that is known.
pub open spec fn message_of(problem: Seq<char>, safe_alternative: Seq<char>) -> Seq<char> {
    if safe_alternative.len() == 0 {
        problem
    } else {
        fill(SAFE_ALTERNATIVE_TEXT@, seq![problem, safe_alternative])
    }
}

/// The message of a diagnostic, as `message_of` says.
pub fn diagnostic_message(problem: &str, safe_alternative: &str) -> (r: String)
    ensures
        r@ == message_of(problem@, safe_alternative@),
{
    if safe_alternative.is_empty() {
        problem.to_string()
    } else {
        let args: Vec<&str> = vec![problem, safe_alternative];
        assert(views(args@) =~= seq![problem@, safe_alternative@]);
        fill_template(SAFE_ALTERNATIVE_TEXT, &args)
    }
}

/// The diagnostic for a violation on a line.
pub open spec fn diagnostic_of(text: Seq<char>) -> spec_fn((usize, ViolationView)) -> DiagnosticView {
    |found: (usize, ViolationView)|
        DiagnosticView {
            range: line_range_of(found.0 as nat, lines(text)),
            severity: severity_of(found.1.severity),
            code: if found.1.check_name.len() == 0 {
                None
            } else {
                Some(found.1.check_name)
            },
            source: DIAGNOSTIC_SOURCE@,
            message: message_of(found.1.problem, found.1.safe_alternative),
        }
}

/// The diagnostics for the violations of a text: one each, on the whole line of the violation.
pub fn violations_to_diagnostics(text: &str, violations: &ViolationList) -> (r: Vec<Diagnostic>)
    ensures
        diagnostic_views(r@) == list_views(violations@).map_values(diagnostic_of(text@)),
{
    let ghost f = diagnostic_of(text@);
    let ghost all = list_views(violations@);
    let split = split_lines(text);
    let mut r: Vec<Diagnostic> = Vec::new();
    let mut i: usize = 0;
    assert(diagnostic_views(r@) =~= all.take(0).map_values(f));
    while i < violations.len()
        invariant
            i <= violations.len(),
            f == diagnostic_of(text@),
            all == list_views(violations@),
            string_views(split@) == lines(text@),
            diagnostic_views(r@) == all.take(i as int).map_values(f),
        decreases violations.len() - i,
    {
        let ghost before = r@;
        let found = &violations[i];
        let diagnostic = Diagnostic {
            range: diagnostic_range(found.0, &split),
            severity: diagnostic_severity(found.1.severity),
            code: diagnostic_code(found.1.check_name.as_str()),
            source: DIAGNOSTIC_SOURCE.to_string(),
            message: diagnostic_message(
                found.1.problem.as_str(),
                found.1.safe_alternative.as_str(),
            ),
        };
        proof {
            assert(all[i as int] == (found.0, found.1@));
            assert(diagnostic@ == f(all[i as int]));
            assert(all.take(i + 1) =~= all.take(i as int).push(all[i as int]));
            assert(all.take(i + 1).map_values(f) =~= all.take(i as int).map_values(f).push(
                f(all[i as int]),
            ));
        }
        r.push(diagnostic);
        assert(diagnostic_views(r@) =~= diagnostic_views(before).push(r@.last()@));
        i += 1;
    }
    assert(all.take(all.len() as int) =~= all);
    r
}

/// Whether an error is a parse error.
pub fn is_parse_error(err: &DieselGuardError) -> (r: bool)
    ensures
        r == (*err is ParseError),
{
    match err {
        DieselGuardError::ParseError { .. } => true,
        _ => false,
    }
}

/// The byte offset that an error points to; zero if it points nowhere.
pub open spec fn offset_of(err: DieselGuardError) -> nat {
    match err {
        DieselGuardError::ParseError { span: Some(at), .. } => at.offset as nat,
        _ => 0,
    }
}

/// The diagnostics of a document that cannot be parsed: one, at the place of the error.
pub open spec fn unparsed(
    uri: Seq<char>,
    text: Seq<char>,
    message: Seq<char>,
    offset: nat,
    version: Option<i32>,
) -> EventView {
    let at = position_of(text, offset);
    EventView {
        uri,
        diagnostics: seq![
            DiagnosticView {
                range: Range { start: at, end: at },
                severity: DiagnosticSeverity::Error,
                code: Some(PARSE_ERROR_CODE@),
                source: DIAGNOSTIC_SOURCE@,
                message,
            },
        ],
        version,
    }
}

/// The diagnostics of a document that cannot be parsed, as `unparsed` says.
pub fn parse_error_event(
    uri: String,
    text: &str,
    err: &DieselGuardError,
    version: Option<i32>,
) -> (r: DiagnosticEvent)
    ensures
        r@ == unparsed(uri@, text@, err.displayed(), offset_of(*err), version),
{
    let offset: usize = match err {
        DieselGuardError::ParseError { span: Some(at), .. } => at.offset,
        _ => 0,
    };
    let at = byte_offset_to_position(text, offset);
    let diagnostics: Vec<Diagnostic> = vec![
        Diagnostic {
            range: Range { start: at, end: at },
            severity: DiagnosticSeverity::Error,
            code: Some(PARSE_ERROR_CODE.to_string()),
            source: DIAGNOSTIC_SOURCE.to_string(),
            message: err.message(),
        },
    ];
    let r = DiagnosticEvent { uri, diagnostics, version };
    assert(r@.diagnostics =~= unparsed(uri@, text@, err.displayed(), offset_of(*err), version).diagnostics);
    r
}

/// The event that shows nothing for a document.
pub open spec fn cleared(uri: Seq<char>, version: Option<i32>) -> EventView {
    EventView { uri, diagnostics: Seq::empty(), version }
}

/// The event that shows nothing for a document, as `cleared` says.
pub fn empty_event(uri: String, version: Option<i32>) -> (r: DiagnosticEvent)
    ensures
        r@ == cleared(uri@, version),
{
    let r = DiagnosticEvent { uri, diagnostics: Vec::new(), version };
    assert(r@.diagnostics =~= Seq::<DiagnosticView>::empty());
    r
}

/// The text of the last of the first `to` changes that replaces the whole document.
pub open spec fn last_full_text(changes: Seq<ContentChange>, to: int) -> Option<Seq<char>>
    decreases to,
{
    if to <= 0 {
        None
    } else if !changes[to - 1].has_range {
        Some(changes[to - 1].text@)
    } else {
        last_full_text(changes, to - 1)
    }
}

/// The text that a document has after changes: that of the last change that replaces the whole of it.
pub fn final_full_sync_text(changes: &Vec<ContentChange>) -> (r: Option<&str>)
    ensures
        opt_str(r) == last_full_text(changes@, changes@.len() as int),
{
    let mut i: usize = changes.len();
    while i > 0
        invariant
            i <= changes.len(),
            last_full_text(changes@, changes@.len() as int) == last_full_text(changes@, i as int),
        decreases i,
    {
        if !changes[i - 1].has_range {
            return Some(changes[i - 1].text.as_str());
        }
        i -= 1;
    }
    None
}

// ---------------------------------------------------------------------------
// Laws
// ---------------------------------------------------------------------------

proof fn lemma_chars_before(s: Seq<char>, k: int)
    requires
        0 <= k <= s.len(),
    ensures
        chars_before(s, encode_utf8(s.take(k)).len()) == k,
    decreases k,
{
    if k > 0 {
        let prefix = s.take(k);
        char_is_scalar(s[0]);
        assert(prefix.drop_first() =~= s.drop_first().take(k - 1));
        lemma_chars_before(s.drop_first(), k - 1);
        if k == 1 {
            assert(encode_utf8(prefix.drop_first()).len() == 0);
        } else {
            let rest = prefix.drop_first();
            char_is_scalar(rest[0]);
            assert(encode_utf8(rest).len() >= 1);
        }
    } else {
        assert(s.take(0) =~= Seq::<char>::empty());
    }
}

/// The place of a byte offset between two characters is where the text before it ends.
pub proof fn law_position_of_a_boundary(s: Seq<char>, k: int)
    requires
        0 <= k <= s.len(),
    ensures
        position_of(s, encode_utf8(s.take(k)).len()) == end_of(s.take(k)),
{
    lemma_chars_before(s, k);
}

/// A byte offset past the end of a text has the place where the text ends.
pub proof fn law_position_past_the_end(s: Seq<char>, offset: nat)
    requires
        offset >= encode_utf8(s).len(),
    ensures
        position_of(s, offset) == end_of(s),
{
    lemma_all_chars_before(s, offset);
    assert(s.take(s.len() as int) =~= s);
}

proof fn lemma_all_chars_before(s: Seq<char>, offset: nat)
    requires
        offset >= encode_utf8(s).len(),
    ensures
        chars_before(s, offset) == s.len(),
    decreases s.len(),
{
    if s.len() > 0 {
        char_is_scalar(s[0]);
        let width = encode_scalar(s[0] as u32).len();
        if offset > width {
            lemma_all_chars_before(s.drop_first(), (offset - width) as nat);
        } else {
            let rest = s.drop_first();
            if rest.len() > 0 {
                char_is_scalar(rest[0]);
                assert(encode_utf8(rest).len() >= 1);
            }
        }
    }
}

/// Every violation has a diagnostic of its own, in the same order, on the line of the violation and
/// with its severity.
pub proof fn law_every_violation_is_shown(text: Seq<char>, found: Seq<(usize, ViolationView)>, i: int)
    requires
        0 <= i < found.len(),
        found[i].0 >= 1,
    ensures
        ({
            let shown = found.map_values(diagnostic_of(text));
            &&& shown.len() == found.len()
            &&& shown[i].range.start.line == capped((found[i].0 - 1) as nat)
            &&& shown[i].range.start.character == 0
            &&& shown[i].severity == severity_of(found[i].1.severity)
        }),
{
}

/// The length of a text in UTF-16 is that of its parts together; a character beyond the first 65536
/// takes two units, any other one.
pub proof fn law_wide_characters_take_two_units(a: Seq<char>, c: char)
    ensures
        utf16_len(Seq::empty()) == 0,
        utf16_len(a.push(c)) == utf16_len(a) + (if c as u32 >= 65536 {
            2int
        } else {
            1int
        }),
{
    assert(a.push(c).drop_last() =~= a);
}

/// The place where a text ends moves with each character: a line feed starts the next line, any other
/// character moves it by as many columns as it takes units.
pub proof fn law_places_move_with_the_text(a: Seq<char>, c: char)
    ensures
        end_of(Seq::empty()) == (Position { line: 0, character: 0 }),
        c == '\n' && line_breaks(a) < u32::MAX ==> end_of(a.push(c)) == (Position {
            line: (end_of(a).line + 1) as u32,
            character: 0,
        }),
        c != '\n' && column(a) + 2 <= u32::MAX ==> end_of(a.push(c)) == (Position {
            line: end_of(a).line,
            character: (end_of(a).character + (if c as u32 >= 65536 {
                2int
            } else {
                1int
            })) as u32,
        }),
{
    assert(a.push(c).drop_last() =~= a);
}

/// The place of a byte offset inside a character is that behind the character.
pub proof fn law_places_inside_a_character(s: Seq<char>, k: int, offset: nat)
    requires
        0 <= k < s.len(),
        encode_utf8(s.take(k)).len() < offset <= encode_utf8(s.take(k + 1)).len(),
    ensures
        position_of(s, offset) == end_of(s.take(k + 1)),
{
    lemma_chars_inside(s, k, offset);
}

proof fn lemma_chars_inside(s: Seq<char>, k: int, offset: nat)
    requires
        0 <= k < s.len(),
        encode_utf8(s.take(k)).len() < offset <= encode_utf8(s.take(k + 1)).len(),
    ensures
        chars_before(s, offset) == k + 1,
    decreases k,
{
    let width = encode_scalar(s[0] as u32).len();
    char_is_scalar(s[0]);
    let first = s.take(k + 1);
    assert(first[0] == s[0]);
    assert(first.drop_first() =~= s.drop_first().take(k));
    if k == 0 {
        assert(first.drop_first().len() == 0);
        assert(encode_utf8(first.drop_first()).len() == 0);
    } else {
        let before = s.take(k);
        assert(before[0] == s[0]);
        assert(before.drop_first() =~= s.drop_first().take(k - 1));
        lemma_chars_inside(s.drop_first(), k - 1, (offset - width) as nat);
    }
}

/// The text that counts is that of the last change without a range; changes of parts do not.
pub proof fn law_the_last_full_text_counts(changes: Seq<ContentChange>, to: int)
    requires
        0 <= to <= changes.len(),
    ensures
        match last_full_text(changes, to) {
            Some(text) => exists|k: int|
                0 <= k < to && !(#[trigger] changes[k]).has_range && changes[k].text@ == text
                    && forall|j: int| k < j < to ==> (#[trigger] changes[j]).has_range,
            None => forall|j: int| 0 <= j < to ==> (#[trigger] changes[j]).has_range,
        },
    decreases to,
{
    if to > 0 {
        if changes[to - 1].has_range {
            law_the_last_full_text_counts(changes, to - 1);
            if let Some(text) = last_full_text(changes, to - 1) {
                let k = choose|k: int|
                    0 <= k < to - 1 && !(#[trigger] changes[k]).has_range && changes[k].text@
                        == text && forall|j: int|
                        k < j < to - 1 ==> (#[trigger] changes[j]).has_range;
                assert(!changes[k].has_range);
            }
        } else {
            assert(!changes[to - 1].has_range);
        }
    }
}

/// A diagnostic says what the problem is, and behind it what to do instead if that is known.
pub proof fn law_messages_hold_problem_and_advice(problem: Seq<char>, advice: Seq<char>)
    ensures
        advice.len() == 0 ==> message_of(problem, advice) == problem,
        advice.len() > 0 ==> message_of(problem, advice) == problem + " Safe alternative: "@
            + advice,
{
    if advice.len() > 0 {
        reveal_strlit("{0} Safe alternative: {1}");
        reveal_strlit(" Safe alternative: ");
        let args = seq![problem, advice];
        let middle = " Safe alternative: "@;
        let none = Seq::<char>::empty();
        let rest = middle + (seq!['{', '1', '}'] + none);
        assert(SAFE_ALTERNATIVE_TEXT@ =~= none + (seq!['{', '0', '}'] + rest));
        law_holes_are_filled(none, '0', rest, args);
        law_holes_are_filled(middle, '1', none, args);
        law_plain_templates_stay(none, args);
        assert(none + (problem + (middle + (advice + none))) =~= problem + middle + advice);
    }
}

/// The place of an error is the one that it gives, or else the start.
pub proof fn law_errors_give_their_place(err: DieselGuardError)
    ensures
        err is ParseError && err->ParseError_span is Some ==> offset_of(err)
            == err->ParseError_span->0.offset,
        !(err is ParseError && err->ParseError_span is Some) ==> offset_of(err) == 0,
{
}

} // verus!
