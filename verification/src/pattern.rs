//! Regular expressions.

use crate::text::opt_text;
use vstd::prelude::*;

verus! {

/// A line that opens a safety-assured block.
pub const START_DIRECTIVE: &'static str = r"(?i)^\s*--\s*safety-assured:start\s*$";

/// A line that closes a safety-assured block.
pub const END_DIRECTIVE: &'static str = r"(?i)^\s*--\s*safety-assured:end\s*$";

/// A line that disables checks for the whole migration; the first group holds their names.
pub const DISABLE_CHECKS_DIRECTIVE: &'static str =
    r"(?i)^\s*--\s*diesel-guard:disable\s+(.+?)\s*$";

/// A timestamp at the start of a Diesel migration name: YYYY_MM_DD_HHMMSS, YYYY-MM-DD-HHMMSS or
/// YYYYMMDDHHMMSS. The first group holds it.
pub const DIESEL_TIMESTAMP: &'static str =
    r"^(\d{4}_\d{2}_\d{2}_\d{6}|\d{4}-\d{2}-\d{2}-\d{6}|\d{14})";

/// The usual names of primary keys: `*_pkey`, `*_pk`, `pk_*`, `*_primary_key`, `*primarykey*`.
pub const PRIMARY_KEY_PATTERN: &'static str = r"(?i)((_pkey|_pk)$|^pk_|_primary_key|primarykey)";

/// The regular expressions of this library.
pub open spec fn is_known_pattern(source: Seq<char>) -> bool {
    source == START_DIRECTIVE@ || source == END_DIRECTIVE@ || source == DISABLE_CHECKS_DIRECTIVE@
        || source == DIESEL_TIMESTAMP@ || source == PRIMARY_KEY_PATTERN@
}

/// What `regex::Regex::is_match` returns for the regular expression `pattern`: whether it matches
/// somewhere in `text`.
pub uninterp spec fn regex_is_match(pattern: Seq<char>, text: Seq<char>) -> bool;

/// The text of the capture group `group` in what `regex::Regex::captures` returns for the regular
/// expression `pattern`: `None` if there is no match in `text` or the group takes no part in it.
pub uninterp spec fn regex_capture(pattern: Seq<char>, text: Seq<char>, group: nat) -> Option<
    Seq<char>,
>;

/// A compiled regular expression of the `regex` crate.
#[verifier::external_type_specification]
#[verifier::external_body]
pub struct ExRegex(regex::Regex);

/// A compiled regular expression with its source. Only `Pattern::new` makes one, so the two belong
/// together.
pub struct Pattern {
    re: regex::Regex,
    source: String,
}

impl View for Pattern {
    type V = Seq<char>;

    closed spec fn view(&self) -> Seq<char> {
        self.source@
    }
}

impl Pattern {
    /// Compiles a regular expression with `regex::Regex::new`. It succeeds on those of this
    /// library, which are valid and far smaller than the crate's size limit.
    #[verifier::external_body]
    pub(crate) fn new(source: &str) -> (r: Pattern)
        requires
            is_known_pattern(source@),
        ensures
            r@ == source@,
    {
        Pattern { re: regex::Regex::new(source).unwrap(), source: source.to_string() }
    }

    /// `regex::Regex::is_match`: whether the expression matches somewhere in the text. The result
    /// depends on the expression and the text alone.
    #[verifier::external_body]
    pub(crate) fn is_match(&self, text: &str) -> (r: bool)
        ensures
            r == regex_is_match(self@, text@),
    {
        self.re.is_match(text)
    }

    /// `regex::Regex::captures` and `regex::Captures::get`: the text of a group of the first match,
    /// if there is a match and the group takes part in it. The result depends on the expression,
    /// the text and the group alone.
    #[verifier::external_body]
    pub(crate) fn capture(&self, text: &str, group: usize) -> (r: Option<String>)
        ensures
            opt_text(r) == regex_capture(self@, text@, group as nat),
    {
        self.re.captures(text)?.get(group).map(|m| m.as_str().to_string())
    }
}

} // verus!
