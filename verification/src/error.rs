//! Errors.

use crate::config::ConfigError;
use crate::text::laws::{
    law_holes_are_filled, law_numbers_are_digits, law_plain_templates_stay,
};
use crate::text::{
    digits_value, fill, fill_template, is_digit, number, occurs_at, parse_number, to_chars, views,
};
use vstd::prelude::*;

verus! {

/// A source text with the name of where it comes from.
#[derive(Debug, Clone)]
pub struct NamedSource {
    pub name: String,
    pub source: String,
}

/// A stretch of a source text, in bytes.
#[derive(Debug, Clone, Copy, PartialEq, Eq, Structural)]
pub struct SourceSpan {
    pub offset: usize,
    pub length: usize,
}

/// Why a migration could not be checked.
#[derive(Debug, Clone)]
pub enum DieselGuardError {
    /// The SQL is not valid.
    ParseError { msg: String, src: Option<NamedSource>, span: Option<SourceSpan> },
    /// A file could not be read.
    IoError(String),
    /// A directory could not be traversed.
    WalkDirError(String),
    /// The configuration is not valid.
    ConfigError(ConfigError),
}

pub type Result<T> = std::result::Result<T, DieselGuardError>;

/// How a parse error is displayed.
pub const PARSE_ERROR_TEXT: &'static str = "Failed to parse SQL: {0}";

/// What comes before a byte position in the parser's messages.
pub const POSITION_MARK: &'static str = "at position ";

/// The last place at or before `at` where `part` stands in `s`.
pub open spec fn last_occurrence(s: Seq<char>, part: Seq<char>, at: int) -> Option<int>
    decreases at + 1,
{
    if at < 0 {
        None
    } else if at + part.len() <= s.len() && s.subrange(at, at + part.len()) == part {
        Some(at)
    } else {
        last_occurrence(s, part, at - 1)
    }
}

/// The position at or after `from` of the first character that is not a digit.
pub open spec fn digits_end(s: Seq<char>, from: int) -> int
    decreases s.len() - from,
{
    if 0 <= from < s.len() && is_digit(s[from]) {
        digits_end(s, from + 1)
    } else {
        from
    }
}

/// The byte position in a message, counted from zero: what the digits after the last mark say, less
/// one.
pub open spec fn byte_position(msg: Seq<char>) -> Option<nat> {
    match last_occurrence(msg, POSITION_MARK@, msg.len() as int) {
        Some(at) => {
            let from = at + POSITION_MARK@.len();
            match number(msg.subrange(from, digits_end(msg, from)), usize::MAX as nat) {
                Some(n) => Some(if n == 0 {
                    0nat
                } else {
                    (n - 1) as nat
                }),
                None => None,
            }
        },
        None => None,
    }
}

/// Parse byte position from pg_query error messages.
///
/// pg_query format: `"... at position N"` where N is a 1-based byte offset.
pub fn parse_byte_position(msg: &str) -> (r: Option<usize>)
    ensures
        (match r {
            Some(p) => Some(p as nat),
            None => None,
        }) == byte_position(msg@),
{
    let chars = to_chars(msg);
    let mark = to_chars(POSITION_MARK);
    let mut i: usize = chars.len();
    let mut found = false;
    loop
        invariant_except_break
            i <= chars.len(),
            chars@ == msg@,
            mark@ == POSITION_MARK@,
            !found,
            last_occurrence(msg@, mark@, msg@.len() as int) == last_occurrence(
                msg@,
                mark@,
                i as int,
            ),
        ensures
            i <= chars.len(),
            found ==> i + mark.len() <= chars.len() && last_occurrence(
                msg@,
                mark@,
                msg@.len() as int,
            ) == Some(i as int),
            !found ==> last_occurrence(msg@, mark@, msg@.len() as int) is None,
        decreases i,
    {
        if occurs_at(&chars, i, &mark) {
            found = true;
            break;
        }
        if i == 0 {
            assert(last_occurrence(msg@, mark@, -1) is None);
            break;
        }
        i -= 1;
    }
    if !found {
        return None;
    }
    let from: usize = i + mark.len();
    let mut end: usize = from;
    while end < chars.len() && '0' <= chars[end] && chars[end] <= '9'
        invariant
            from <= end <= chars.len(),
            chars@ == msg@,
            digits_end(msg@, from as int) == digits_end(msg@, end as int),
        decreases chars.len() - end,
    {
        end += 1;
    }
    match parse_number(&chars, from, end, usize::MAX as u64) {
        Some(n) => Some(if n == 0 {
            0
        } else {
            (n - 1) as usize
        }),
        None => None,
    }
}

/// The place that a parse error points to: the one it carries, else the one in its message, else
/// the start.
pub open spec fn located(msg: Seq<char>, span: Option<SourceSpan>) -> SourceSpan {
    match span {
        Some(s) => s,
        None => SourceSpan {
            offset: match byte_position(msg) {
                Some(p) => p as usize,
                None => 0,
            },
            length: 0,
        },
    }
}

impl DieselGuardError {
    /// Create a parse error with just a message (no source location).
    pub fn parse_error(msg: &str) -> (r: DieselGuardError)
        ensures
            r matches DieselGuardError::ParseError { msg: m, src, span } && m@ == msg@ && src is None
                && span is None,
    {
        DieselGuardError::ParseError { msg: msg.to_string(), src: None, span: None }
    }

    /// Attach file context to a parse error.
    ///
    /// Adds source code with filename and computes the span from any
    /// position info in the error message. Non-parse errors are returned as-is.
    pub fn with_file_context(self, path: &str, source: String) -> (r: DieselGuardError)
        ensures
            match self {
                DieselGuardError::ParseError { msg, span, .. } => (r matches DieselGuardError::ParseError {
                    msg: m,
                    src: Some(file),
                    span: at,
                } && m == msg && file.name@ == path@ && file.source@ == source@ && at == Some(
                    located(msg@, span),
                )),
                _ => r == self,
            },
    {
        match self {
            DieselGuardError::ParseError { msg, span, .. } => {
                let at = match span {
                    Some(s) => s,
                    None => match parse_byte_position(msg.as_str()) {
                        Some(p) => SourceSpan { offset: p, length: 0 },
                        None => SourceSpan { offset: 0, length: 0 },
                    },
                };
                DieselGuardError::ParseError {
                    msg,
                    src: Some(NamedSource { name: path.to_string(), source }),
                    span: Some(at),
                }
            },
            other => other,
        }
    }

    /// The text that is displayed for an error.
    pub open spec fn displayed(self) -> Seq<char> {
        match self {
            DieselGuardError::ParseError { msg, .. } => fill(PARSE_ERROR_TEXT@, seq![msg@]),
            DieselGuardError::IoError(_) => "Failed to read file"@,
            DieselGuardError::WalkDirError(_) => "Failed to traverse directory"@,
            DieselGuardError::ConfigError(err) => err.displayed(),
        }
    }

    /// The text of the error, as `displayed` says.
    pub fn message(&self) -> (r: String)
        ensures
            r@ == self.displayed(),
    {
        match self {
            DieselGuardError::ParseError { msg, .. } => {
                let args: Vec<&str> = vec![msg.as_str()];
                assert(views(args@) =~= seq![msg@]);
                fill_template(PARSE_ERROR_TEXT, &args)
            },
            DieselGuardError::IoError(_) => "Failed to read file".to_string(),
            DieselGuardError::WalkDirError(_) => "Failed to traverse directory".to_string(),
            DieselGuardError::ConfigError(err) => err.message(),
        }
    }
}

proof fn lemma_last_occurrence(s: Seq<char>, part: Seq<char>, at: int, k: int)
    requires
        0 <= k <= at,
        k + part.len() <= s.len(),
        s.subrange(k, k + part.len()) == part,
        forall|i: int|
            k < i <= at && i + part.len() <= s.len() ==> #[trigger] s.subrange(i, i + part.len())
                != part,
    ensures
        last_occurrence(s, part, at) == Some(k),
    decreases at - k,
{
    if k < at {
        lemma_last_occurrence(s, part, at - 1, k);
    }
}

proof fn lemma_no_occurrence(s: Seq<char>, part: Seq<char>, at: int)
    requires
        forall|i: int|
            0 <= i <= at && i + part.len() <= s.len() ==> #[trigger] s.subrange(i, i + part.len())
                != part,
    ensures
        last_occurrence(s, part, at) is None,
    decreases at + 1,
{
    if at >= 0 {
        lemma_no_occurrence(s, part, at - 1);
    }
}

proof fn lemma_digits_end(s: Seq<char>, from: int, end: int)
    requires
        0 <= from <= end <= s.len(),
        forall|i: int| from <= i < end ==> '0' <= #[trigger] s[i] <= '9',
        end < s.len() ==> !('0' <= s[end] <= '9'),
    ensures
        digits_end(s, from) == end,
    decreases end - from,
{
    if from < end {
        assert('0' <= s[from] <= '9');
        lemma_digits_end(s, from + 1, end);
    }
}

/// The place in a message is given by the digits behind the last mark, which count from 1; a zero counts
/// as the first place. Without digits there, or with too large a number, there is no place.
pub proof fn law_positions_are_read(before: Seq<char>, digits: Seq<char>, after: Seq<char>)
    requires
        forall|i: int| 0 <= i < digits.len() ==> '0' <= #[trigger] digits[i] <= '9',
        after.len() > 0 ==> !('0' <= after[0] <= '9'),
        forall|i: int|
            before.len() < i && i + 12 <= before.len() + 12 + digits.len() + after.len()
                ==> #[trigger] (before + "at position "@ + digits + after).subrange(i, i + 12)
                != "at position "@,
    ensures
        byte_position(before + "at position "@ + digits + after) == if digits.len() == 0
            || digits_value(digits) > usize::MAX {
            None
        } else if digits_value(digits) == 0 {
            Some(0)
        } else {
            Some((digits_value(digits) - 1) as nat)
        },
{
    reveal_strlit("at position ");
    let mark = POSITION_MARK@;
    assert(mark.len() == 12);
    let msg = before + mark + digits + after;
    let at = before.len() as int;
    let from = at + 12;
    let end = from + digits.len();
    assert(msg.subrange(at, at + mark.len()) =~= mark);
    lemma_last_occurrence(msg, mark, msg.len() as int, at);
    assert forall|i: int| from <= i < end implies '0' <= #[trigger] msg[i] <= '9' by {
        assert(msg[i] == digits[i - from]);
    }
    if end < msg.len() {
        assert(msg[end] == after[0]);
    }
    lemma_digits_end(msg, from, end);
    assert(msg.subrange(from, end) =~= digits);
    law_numbers_are_digits(digits, usize::MAX as nat);
}

/// A message without the mark gives no place.
pub proof fn law_messages_without_mark_give_no_place(msg: Seq<char>)
    requires
        forall|i: int|
            0 <= i && i + 12 <= msg.len() ==> #[trigger] msg.subrange(i, i + 12) != "at position "@,
    ensures
        byte_position(msg) is None,
{
    reveal_strlit("at position ");
    assert(POSITION_MARK@.len() == 12);
    lemma_no_occurrence(msg, POSITION_MARK@, msg.len() as int);
}

/// The place that the parser gives is kept; otherwise the one in the message counts, or else the start.
pub proof fn law_given_places_are_kept(msg: Seq<char>, span: Option<SourceSpan>)
    ensures
        span is Some ==> located(msg, span) == span->0,
        span is None && byte_position(msg) is None ==> located(msg, span) == (SourceSpan {
            offset: 0,
            length: 0,
        }),
        span is None && byte_position(msg) is Some ==> located(msg, span) == (SourceSpan {
            offset: byte_position(msg)->0 as usize,
            length: 0,
        }),
{
}

/// A parse error is displayed with its message behind a fixed text.
pub proof fn law_parse_errors_show_their_message(err: DieselGuardError)
    requires
        err is ParseError,
    ensures
        err.displayed() == "Failed to parse SQL: "@ + err->ParseError_msg@,
{
    reveal_strlit("Failed to parse SQL: {0}");
    reveal_strlit("Failed to parse SQL: ");
    let args = seq![err->ParseError_msg@];
    let none = Seq::<char>::empty();
    assert(PARSE_ERROR_TEXT@ =~= "Failed to parse SQL: "@ + (seq!['{', '0', '}'] + none));
    law_holes_are_filled("Failed to parse SQL: "@, '0', none, args);
    law_plain_templates_stay(none, args);
    assert("Failed to parse SQL: "@ + (err->ParseError_msg@ + none) =~= "Failed to parse SQL: "@
        + err->ParseError_msg@);
}

} // verus!
