//! Text primitives: message templates, lists, lines, numbers.
//!
//! A text is modelled by its sequence of characters.

pub mod laws;

use vstd::prelude::*;

verus! {

/// `String::push` appends the given character to the end of the string.
pub assume_specification[ std::string::String::push ](s: &mut std::string::String, c: char)
    ensures
        final(s)@ == old(s)@.push(c),
;

/// Equality of string slices is equality of their characters.
pub assume_specification[ <str as PartialEq>::eq ](s: &str, other: &str) -> (res: bool)
    ensures
        res == (s@ == other@),
;

/// The characters of a string.
pub fn to_chars(s: &str) -> (r: Vec<char>)
    ensures
        r@ == s@,
{
    let mut r: Vec<char> = Vec::new();
    for c in it: s.chars()
        invariant
            r@ == s@.take(it.index()),
            it.seq() == s@,
    {
        r.push(c);
        assert(s@.take(it.index() + 1) =~= s@.take(it.index()).push(c));
    }
    assert(s@.take(s@.len() as int) =~= s@);
    r
}

/// The string made of the characters `from..to` of `chars`.
pub fn from_chars(chars: &Vec<char>, from: usize, to: usize) -> (r: String)
    requires
        from <= to <= chars@.len(),
    ensures
        r@ == chars@.subrange(from as int, to as int),
{
    let mut r = String::new();
    let mut i: usize = from;
    while i < to
        invariant
            from <= i <= to <= chars@.len(),
            r@ == chars@.subrange(from as int, i as int),
        decreases to - i,
    {
        r.push(chars[i]);
        assert(chars@.subrange(from as int, i + 1) =~= chars@.subrange(from as int, i as int).push(
            chars@[i as int],
        ));
        i += 1;
    }
    r
}

/// The views of a list of string slices.
pub open spec fn views(parts: Seq<&str>) -> Seq<Seq<char>> {
    parts.map_values(|p: &str| p@)
}

/// The views of a list of strings.
pub open spec fn string_views(parts: Seq<String>) -> Seq<Seq<char>> {
    parts.map_values(|p: String| p@)
}

/// The model of an optional string.
pub open spec fn opt_text(s: Option<String>) -> Option<Seq<char>> {
    match s {
        Some(s) => Some(s@),
        None => None,
    }
}

/// The model of an optional string slice.
pub open spec fn opt_str(s: Option<&str>) -> Option<Seq<char>> {
    match s {
        Some(s) => Some(s@),
        None => None,
    }
}

/// Whether two texts are the same.
pub fn same_text(a: &str, b: &str) -> (r: bool)
    ensures
        r == (a@ == b@),
{
    str::eq(a, b)
}

/// Whether two optional texts are the same.
pub fn same_opt_text(a: &Option<String>, b: &Option<String>) -> (r: bool)
    ensures
        r == (opt_text(*a) == opt_text(*b)),
{
    match (a, b) {
        (Some(a), Some(b)) => same_text(a.as_str(), b.as_str()),
        (None, None) => true,
        _ => false,
    }
}

/// Whether two lists hold the same texts in the same order.
pub fn same_texts(a: &Vec<String>, b: &Vec<String>) -> (r: bool)
    ensures
        r == (string_views(a@) == string_views(b@)),
{
    if a.len() != b.len() {
        assert(string_views(a@).len() != string_views(b@).len());
        return false;
    }
    let mut i: usize = 0;
    while i < a.len()
        invariant
            i <= a.len(),
            a@.len() == b@.len(),
            forall|j: int| 0 <= j < i ==> (#[trigger] a@[j])@ == b@[j]@,
        decreases a.len() - i,
    {
        if !same_text(a[i].as_str(), b[i].as_str()) {
            assert(string_views(a@)[i as int] != string_views(b@)[i as int]);
            return false;
        }
        i += 1;
    }
    assert(string_views(a@) =~= string_views(b@));
    true
}

/// A list of the same texts.
pub fn copy_texts(texts: &Vec<String>) -> (r: Vec<String>)
    ensures
        string_views(r@) == string_views(texts@),
{
    let mut r: Vec<String> = Vec::new();
    let mut i: usize = 0;
    while i < texts.len()
        invariant
            i <= texts.len(),
            r@.len() == i,
            forall|j: int| 0 <= j < i ==> (#[trigger] r@[j])@ == texts@[j]@,
        decreases texts.len() - i,
    {
        r.push(texts[i].clone());
        i += 1;
    }
    assert(string_views(r@) =~= string_views(texts@));
    r
}

/// The same text, if there is one.
pub fn copy_opt_text(text: &Option<String>) -> (r: Option<String>)
    ensures
        opt_text(r) == opt_text(*text),
{
    match text {
        Some(s) => Some(s.clone()),
        None => None,
    }
}

// ---------------------------------------------------------------------------
// Message templates
// ---------------------------------------------------------------------------

/// Whether a template starts with a hole `{d}` that one of `n` arguments fills.
pub open spec fn starts_with_hole(template: Seq<char>, n: nat) -> bool {
    template.len() >= 3 && template[0] == '{' && '0' <= template[1] <= '9' && template[2] == '}'
        && (template[1] as int - '0' as int) < n
}

/// The text of a template: each hole `{0}` to `{9}` is replaced by the argument of that number,
/// and everything else stands as it is. Arguments are not searched for holes.
pub open spec fn fill(template: Seq<char>, args: Seq<Seq<char>>) -> Seq<char>
    decreases template.len(),
{
    if template.len() == 0 {
        Seq::empty()
    } else if starts_with_hole(template, args.len()) {
        args[template[1] as int - '0' as int] + fill(template.skip(3), args)
    } else {
        seq![template[0]] + fill(template.skip(1), args)
    }
}

/// Fills a template, as `fill` says.
pub fn fill_template(template: &str, args: &Vec<&str>) -> (r: String)
    ensures
        r@ == fill(template@, views(args@)),
{
    let chars = to_chars(template);
    let mut r = String::new();
    let mut i: usize = 0;
    assert(template@.skip(0) =~= template@);
    while i < chars.len()
        invariant
            i <= chars@.len(),
            chars@ == template@,
            r@ + fill(template@.skip(i as int), views(args@)) == fill(template@, views(args@)),
        decreases chars.len() - i,
    {
        let ghost rest = template@.skip(i as int);
        let c = chars[i];
        if c == '{' && chars.len() - i >= 3 && '0' <= chars[i + 1] && chars[i + 1] <= '9'
            && chars[i + 2] == '}' && ((chars[i + 1] as u32 - '0' as u32) as usize) < args.len() {
            let k: usize = (chars[i + 1] as u32 - '0' as u32) as usize;
            r.append(args[k]);
            proof {
                assert(starts_with_hole(rest, views(args@).len()));
                assert(rest.skip(3) =~= template@.skip(i + 3));
                assert(views(args@)[k as int] == args@[k as int]@);
            }
            i += 3;
        } else {
            r.push(c);
            proof {
                assert(!starts_with_hole(rest, views(args@).len()));
                assert(rest.skip(1) =~= template@.skip(i + 1));
            }
            i += 1;
        }
    }
    assert(template@.skip(i as int) =~= Seq::<char>::empty());
    assert(r@ + Seq::<char>::empty() =~= r@);
    r
}

// ---------------------------------------------------------------------------
// Lists and replacement
// ---------------------------------------------------------------------------

/// The parts one after the other, with the separator between two of them.
pub open spec fn join(parts: Seq<Seq<char>>, separator: Seq<char>) -> Seq<char>
    decreases parts.len(),
{
    if parts.len() == 0 {
        Seq::empty()
    } else if parts.len() == 1 {
        parts[0]
    } else {
        join(parts.drop_last(), separator) + separator + parts.last()
    }
}

/// Joins the parts from number `from` on, as `join` says.
pub fn join_strings(parts: &Vec<String>, from: usize, separator: &str) -> (r: String)
    requires
        from <= parts@.len(),
    ensures
        r@ == join(string_views(parts@).skip(from as int), separator@),
{
    let ghost all = string_views(parts@).skip(from as int);
    let mut r = String::new();
    let mut i: usize = from;
    assert(all.take(0) =~= Seq::<Seq<char>>::empty());
    while i < parts.len()
        invariant
            from <= i <= parts@.len(),
            all == string_views(parts@).skip(from as int),
            r@ == join(all.take(i - from), separator@),
        decreases parts.len() - i,
    {
        let ghost next = all.take(i - from + 1);
        if i > from {
            r.append(separator);
        }
        r.append(parts[i].as_str());
        proof {
            assert(next.drop_last() =~= all.take(i - from));
            assert(next.last() == parts@[i as int]@);
            if i == from {
                assert(r@ =~= next[0]);
            }
        }
        i += 1;
    }
    assert(all.take(i - from) =~= all);
    r
}

/// The text with each occurrence of `from`, found from left to right, replaced by `to`.
pub open spec fn replace_all(s: Seq<char>, from: Seq<char>, to: Seq<char>) -> Seq<char>
    decreases s.len(),
{
    if from.len() == 0 || s.len() < from.len() {
        s
    } else if s.take(from.len() as int) == from {
        to + replace_all(s.skip(from.len() as int), from, to)
    } else {
        seq![s[0]] + replace_all(s.skip(1), from, to)
    }
}

/// Whether `part` stands in `chars` at position `at`.
pub fn occurs_at(chars: &Vec<char>, at: usize, part: &Vec<char>) -> (r: bool)
    requires
        at <= chars@.len(),
    ensures
        r == (chars@.len() - at >= part@.len() && chars@.subrange(at as int, at + part@.len())
            == part@),
{
    if chars.len() - at < part.len() {
        return false;
    }
    let mut k: usize = 0;
    while k < part.len()
        invariant
            k <= part@.len(),
            at + part.len() <= chars.len(),
            chars@.subrange(at as int, at + k) == part@.take(k as int),
        decreases part.len() - k,
    {
        if chars[at + k] != part[k] {
            assert(chars@.subrange(at as int, at + part@.len())[k as int] != part@[k as int]);
            return false;
        }
        proof {
            assert(chars@.subrange(at as int, at + k + 1) =~= chars@.subrange(
                at as int,
                at + k,
            ).push(chars@[at + k]));
            assert(part@.take(k + 1) =~= part@.take(k as int).push(part@[k as int]));
        }
        k += 1;
    }
    assert(part@.take(part@.len() as int) =~= part@);
    true
}

/// Replaces every occurrence, as `replace_all` says.
pub fn replace_text(s: &str, from: &str, to: &str) -> (r: String)
    requires
        from@.len() > 0,
    ensures
        r@ == replace_all(s@, from@, to@),
{
    let chars = to_chars(s);
    let part = to_chars(from);
    let mut r = String::new();
    let mut i: usize = 0;
    assert(s@.skip(0) =~= s@);
    while chars.len() - i >= part.len()
        invariant
            i <= chars@.len(),
            chars@ == s@,
            part@ == from@,
            from@.len() > 0,
            r@ + replace_all(s@.skip(i as int), from@, to@) == replace_all(s@, from@, to@),
        decreases chars.len() - i,
    {
        let ghost rest = s@.skip(i as int);
        proof {
            assert(rest.take(from@.len() as int) =~= chars@.subrange(i as int, i + part@.len()));
        }
        if occurs_at(&chars, i, &part) {
            r.append(to);
            proof {
                assert(rest.skip(from@.len() as int) =~= s@.skip(i + from@.len()));
            }
            i += part.len();
        } else {
            r.push(chars[i]);
            proof {
                assert(rest.skip(1) =~= s@.skip(i + 1));
            }
            i += 1;
        }
    }
    r.append(from_chars(&chars, i, chars.len()).as_str());
    assert(chars@.subrange(i as int, chars@.len() as int) =~= s@.skip(i as int));
    r
}

// ---------------------------------------------------------------------------
// White space, lines, fields
// ---------------------------------------------------------------------------

/// Whether a character has Unicode's White_Space property.
pub open spec fn is_white_space(c: char) -> bool {
    ('\u{9}' <= c <= '\u{d}') || c == ' ' || c == '\u{85}' || c == '\u{a0}' || c == '\u{1680}' || (
    '\u{2000}' <= c <= '\u{200a}') || c == '\u{2028}' || c == '\u{2029}' || c == '\u{202f}' || c
        == '\u{205f}' || c == '\u{3000}'
}

pub fn white_space(c: char) -> (r: bool)
    ensures
        r == is_white_space(c),
{
    ('\u{9}' <= c && c <= '\u{d}') || c == ' ' || c == '\u{85}' || c == '\u{a0}' || c == '\u{1680}'
        || ('\u{2000}' <= c && c <= '\u{200a}') || c == '\u{2028}' || c == '\u{2029}' || c
        == '\u{202f}' || c == '\u{205f}' || c == '\u{3000}'
}

/// The text without the white space it starts with.
pub open spec fn trim_start(s: Seq<char>) -> Seq<char>
    decreases s.len(),
{
    if s.len() > 0 && is_white_space(s[0]) {
        trim_start(s.skip(1))
    } else {
        s
    }
}

/// The text without the white space it ends with.
pub open spec fn trim_end(s: Seq<char>) -> Seq<char>
    decreases s.len(),
{
    if s.len() > 0 && is_white_space(s.last()) {
        trim_end(s.drop_last())
    } else {
        s
    }
}

/// The text without the white space around it.
pub open spec fn trim(s: Seq<char>) -> Seq<char> {
    trim_end(trim_start(s))
}

/// Trims the characters `from..to`, as `trim` says.
pub fn trim_chars(chars: &Vec<char>, from: usize, to: usize) -> (r: String)
    requires
        from <= to <= chars@.len(),
    ensures
        r@ == trim(chars@.subrange(from as int, to as int)),
{
    let ghost all = chars@.subrange(from as int, to as int);
    let mut i: usize = from;
    while i < to && white_space(chars[i])
        invariant
            from <= i <= to <= chars@.len(),
            all == chars@.subrange(from as int, to as int),
            trim_start(all) == trim_start(chars@.subrange(i as int, to as int)),
        decreases to - i,
    {
        proof {
            let rest = chars@.subrange(i as int, to as int);
            assert(rest.skip(1) =~= chars@.subrange(i + 1, to as int));
        }
        i += 1;
    }
    let mut j: usize = to;
    let ghost kept = chars@.subrange(i as int, to as int);
    assert(trim_start(kept) == kept);
    while j > i && white_space(chars[j - 1])
        invariant
            from <= i <= j <= to <= chars@.len(),
            kept == chars@.subrange(i as int, to as int),
            trim_end(kept) == trim_end(chars@.subrange(i as int, j as int)),
        decreases j,
    {
        proof {
            let rest = chars@.subrange(i as int, j as int);
            assert(rest.drop_last() =~= chars@.subrange(i as int, j - 1));
        }
        j -= 1;
    }
    from_chars(chars, i, j)
}

/// Trims a text, as `trim` says.
pub fn trim_text(s: &str) -> (r: String)
    ensures
        r@ == trim(s@),
{
    let chars = to_chars(s);
    assert(chars@.subrange(0, chars@.len() as int) =~= s@);
    trim_chars(&chars, 0, chars.len())
}

/// The first position at or after `from` that holds `c`; the length if there is none.
pub open spec fn position_from(s: Seq<char>, c: char, from: int) -> int
    decreases s.len() - from,
{
    if from < 0 || from >= s.len() {
        s.len() as int
    } else if s[from] == c {
        from
    } else {
        position_from(s, c, from + 1)
    }
}

proof fn lemma_position_bounds(s: Seq<char>, c: char, from: int)
    requires
        0 <= from <= s.len(),
    ensures
        from <= position_from(s, c, from) <= s.len(),
        position_from(s, c, from) < s.len() ==> s[position_from(s, c, from)] == c,
    decreases s.len() - from,
{
    if from < s.len() && s[from] != c {
        lemma_position_bounds(s, c, from + 1);
    }
}

/// Finds a character, as `position_from` says.
pub fn find_char(chars: &Vec<char>, c: char, from: usize) -> (r: usize)
    requires
        from <= chars@.len(),
    ensures
        r == position_from(chars@, c, from as int),
        from <= r <= chars@.len(),
        r < chars@.len() ==> chars@[r as int] == c,
{
    let mut i: usize = from;
    while i < chars.len() && chars[i] != c
        invariant
            from <= i <= chars@.len(),
            position_from(chars@, c, from as int) == position_from(chars@, c, i as int),
        decreases chars.len() - i,
    {
        i += 1;
    }
    i
}

/// A line without the carriage return before its line feed.
pub open spec fn strip_carriage_return(line: Seq<char>) -> Seq<char> {
    if line.len() > 0 && line.last() == '\r' {
        line.drop_last()
    } else {
        line
    }
}

/// The lines of `s` from position `from` on. A line ends at a line feed, or at a carriage return
/// and a line feed; the last one may end with the text.
pub open spec fn lines_from(s: Seq<char>, from: int) -> Seq<Seq<char>>
    decreases s.len() - from,
{
    if from < 0 || from >= s.len() {
        Seq::empty()
    } else {
        let end = position_from(s, '\n', from);
        if from <= end < s.len() {
            seq![strip_carriage_return(s.subrange(from, end))] + lines_from(s, end + 1)
        } else {
            seq![s.skip(from)]
        }
    }
}

/// The lines of a text.
pub open spec fn lines(s: Seq<char>) -> Seq<Seq<char>> {
    lines_from(s, 0)
}

/// Splits a text into its lines, as `lines` says.
pub fn split_lines(s: &str) -> (r: Vec<String>)
    ensures
        string_views(r@) == lines(s@),
{
    let chars = to_chars(s);
    let mut r: Vec<String> = Vec::new();
    let mut i: usize = 0;
    assert(string_views(r@) + lines_from(s@, 0) =~= lines(s@));
    while i < chars.len()
        invariant
            i <= chars@.len(),
            chars@ == s@,
            string_views(r@) + lines_from(s@, i as int) == lines(s@),
        decreases chars.len() - i,
    {
        let ghost before = r@;
        let end: usize = find_char(&chars, '\n', i);
        if end < chars.len() {
            let ghost whole = s@.subrange(i as int, end as int);
            let stop: usize = if end > i && chars[end - 1] == '\r' {
                end - 1
            } else {
                end
            };
            let line = from_chars(&chars, i, stop);
            proof {
                assert(line@ =~= strip_carriage_return(whole));
            }
            r.push(line);
            proof {
                assert(string_views(r@) =~= string_views(before).push(line@));
                assert(string_views(before) + (seq![line@] + lines_from(s@, end + 1))
                    =~= string_views(r@) + lines_from(s@, end + 1));
            }
            i = end + 1;
        } else {
            let line = from_chars(&chars, i, chars.len());
            proof {
                assert(line@ =~= s@.skip(i as int));
            }
            r.push(line);
            proof {
                assert(string_views(r@) =~= string_views(before).push(line@));
                assert(lines_from(s@, chars@.len() as int) =~= Seq::<Seq<char>>::empty());
                assert(string_views(before) + seq![line@] =~= string_views(r@) + lines_from(
                    s@,
                    chars@.len() as int,
                ));
            }
            i = chars.len();
        }
    }
    assert(string_views(r@) + Seq::<Seq<char>>::empty() =~= string_views(r@));
    r
}

/// The fields of `s` from position `from` on, parted by `separator`: those that are not blank,
/// each without the white space around it.
pub open spec fn fields_from(s: Seq<char>, separator: char, from: int) -> Seq<Seq<char>>
    decreases s.len() - from,
{
    let end = position_from(s, separator, from);
    let field = trim(s.subrange(from, end));
    let rest = if 0 <= from <= end < s.len() {
        fields_from(s, separator, end + 1)
    } else {
        Seq::empty()
    };
    if field.len() > 0 {
        seq![field] + rest
    } else {
        rest
    }
}

/// The fields of a text that are not blank, without the white space around them.
pub open spec fn fields(s: Seq<char>, separator: char) -> Seq<Seq<char>> {
    fields_from(s, separator, 0)
}

/// Splits a text into its fields, as `fields` says.
pub fn split_fields(s: &str, separator: char) -> (r: Vec<String>)
    ensures
        string_views(r@) == fields(s@, separator),
{
    let chars = to_chars(s);
    let mut r: Vec<String> = Vec::new();
    let mut i: usize = 0;
    let mut more = true;
    assert(string_views(r@) + fields(s@, separator) =~= fields(s@, separator));
    while more
        invariant
            i <= chars.len(),
            chars@ == s@,
            more ==> string_views(r@) + fields_from(s@, separator, i as int) == fields(
                s@,
                separator,
            ),
            !more ==> string_views(r@) == fields(s@, separator),
        decreases chars.len() - i + (if more {
            1int
        } else {
            0int
        }),
    {
        let ghost before = r@;
        let end: usize = find_char(&chars, separator, i);
        let field = trim_chars(&chars, i, end);
        let ghost rest = if end < s@.len() {
            fields_from(s@, separator, end + 1)
        } else {
            Seq::empty()
        };
        if !field.as_str().is_empty() {
            r.push(field);
            proof {
                assert(string_views(r@) =~= string_views(before).push(field@));
                assert(string_views(before) + (seq![field@] + rest) =~= string_views(r@) + rest);
            }
        }
        if end < chars.len() {
            i = end + 1;
        } else {
            assert(string_views(r@) + Seq::<Seq<char>>::empty() =~= string_views(r@));
            more = false;
        }
    }
    r
}

// ---------------------------------------------------------------------------
// Numbers and order
// ---------------------------------------------------------------------------

/// The decimal digit of a number below ten.
pub open spec fn digit(d: nat) -> char {
    if d == 0 {
        '0'
    } else if d == 1 {
        '1'
    } else if d == 2 {
        '2'
    } else if d == 3 {
        '3'
    } else if d == 4 {
        '4'
    } else if d == 5 {
        '5'
    } else if d == 6 {
        '6'
    } else if d == 7 {
        '7'
    } else if d == 8 {
        '8'
    } else {
        '9'
    }
}

fn digit_char(d: u64) -> (r: char)
    requires
        d < 10,
    ensures
        r == digit(d as nat),
{
    match d {
        0 => '0',
        1 => '1',
        2 => '2',
        3 => '3',
        4 => '4',
        5 => '5',
        6 => '6',
        7 => '7',
        8 => '8',
        _ => '9',
    }
}

/// A number in decimal notation.
pub open spec fn decimal(n: nat) -> Seq<char>
    decreases n,
{
    if n < 10 {
        seq![digit(n)]
    } else {
        decimal(n / 10).push(digit(n % 10))
    }
}

/// A signed number in decimal notation.
pub open spec fn signed_decimal(n: int) -> Seq<char> {
    if n < 0 {
        seq!['-'] + decimal((-n) as nat)
    } else {
        decimal(n as nat)
    }
}

/// Writes a number in decimal notation.
pub fn decimal_text(n: u64) -> (r: String)
    ensures
        r@ == decimal(n as nat),
    decreases n,
{
    if n < 10 {
        let mut r = String::new();
        r.push(digit_char(n));
        assert(r@ =~= seq![digit(n as nat)]);
        r
    } else {
        let mut r = decimal_text(n / 10);
        r.push(digit_char(n % 10));
        r
    }
}

/// Writes a signed number in decimal notation.
pub fn signed_decimal_text(n: i32) -> (r: String)
    ensures
        r@ == signed_decimal(n as int),
{
    if n < 0 {
        let mut r = String::new();
        r.push('-');
        r.append(decimal_text((-(n as i64)) as u64).as_str());
        assert(r@ =~= seq!['-'] + decimal((-n) as nat));
        r
    } else {
        decimal_text(n as u64)
    }
}

/// Whether a character is one of the ASCII digits.
pub open spec fn is_digit(c: char) -> bool {
    '0' <= c <= '9'
}

/// Whether a text holds ASCII digits only.
pub open spec fn all_digits(s: Seq<char>) -> bool {
    forall|i: int| 0 <= i < s.len() ==> is_digit(#[trigger] s[i])
}

/// The number that a sequence of ASCII digits stands for.
pub open spec fn digits_value(s: Seq<char>) -> nat
    decreases s.len(),
{
    if s.len() == 0 {
        0
    } else {
        digits_value(s.drop_last()) * 10 + (s.last() as int - '0' as int) as nat
    }
}

/// The number that a text of one or more ASCII digits stands for, if it is at most `max`.
pub open spec fn number(s: Seq<char>, max: nat) -> Option<nat> {
    if s.len() > 0 && all_digits(s) && digits_value(s) <= max {
        Some(digits_value(s))
    } else {
        None
    }
}

proof fn lemma_digits_value_grows(s: Seq<char>, k: int)
    requires
        0 <= k <= s.len(),
        all_digits(s),
    ensures
        digits_value(s.take(k)) <= digits_value(s),
    decreases s.len(),
{
    if k == s.len() {
        assert(s.take(k) =~= s);
    } else {
        assert(all_digits(s.drop_last()));
        lemma_digits_value_grows(s.drop_last(), k);
        assert(s.drop_last().take(k) =~= s.take(k));
        assert(is_digit(s.last()));
    }
}

/// Reads the number in the characters `from..to`, as `number` says.
pub fn parse_number(chars: &Vec<char>, from: usize, to: usize, max: u64) -> (r: Option<u64>)
    requires
        from <= to <= chars@.len(),
    ensures
        r matches Some(n) ==> number(chars@.subrange(from as int, to as int), max as nat) == Some(
            n as nat,
        ),
        r is None ==> number(chars@.subrange(from as int, to as int), max as nat) is None,
{
    let ghost s = chars@.subrange(from as int, to as int);
    if from == to {
        return None;
    }
    let mut i: usize = from;
    while i < to
        invariant
            from <= i <= to <= chars.len(),
            s == chars@.subrange(from as int, to as int),
            forall|j: int| from <= j < i ==> is_digit(#[trigger] chars@[j]),
        decreases to - i,
    {
        if chars[i] < '0' || chars[i] > '9' {
            assert(s[i - from] == chars@[i as int]);
            return None;
        }
        i += 1;
    }
    assert(all_digits(s));
    let mut v: u64 = 0;
    let mut k: usize = from;
    assert(s.take(0) =~= Seq::<char>::empty());
    while k < to
        invariant
            from <= k <= to <= chars.len(),
            s == chars@.subrange(from as int, to as int),
            all_digits(s),
            v == digits_value(s.take(k - from)),
            v <= max,
        decreases to - k,
    {
        assert(is_digit(s[k - from]));
        let d: u64 = (chars[k] as u32 - '0' as u32) as u64;
        proof {
            let t = s.take(k - from + 1);
            assert(t.drop_last() =~= s.take(k - from));
            assert(t.last() == chars@[k as int]);
            assert(digits_value(t) == v * 10 + d);
            lemma_digits_value_grows(s, k - from + 1);
        }
        if v > max / 10 || d > max || v * 10 > max - d {
            return None;
        }
        v = v * 10 + d;
        k += 1;
    }
    assert(s.take(to - from) =~= s);
    Some(v)
}

/// Whether `a` comes before `b` in the order of their characters.
pub open spec fn text_before(a: Seq<char>, b: Seq<char>) -> bool
    decreases b.len(),
{
    if b.len() == 0 {
        false
    } else if a.len() == 0 {
        true
    } else {
        a[0] < b[0] || (a[0] == b[0] && text_before(a.skip(1), b.skip(1)))
    }
}

/// Compares two texts, as `text_before` says.
pub fn comes_before(a: &str, b: &str) -> (r: bool)
    ensures
        r == text_before(a@, b@),
{
    let x = to_chars(a);
    let y = to_chars(b);
    let mut i: usize = 0;
    assert(a@.skip(0) =~= a@);
    assert(b@.skip(0) =~= b@);
    while i < x.len() && i < y.len()
        invariant
            i <= x.len(),
            i <= y.len(),
            x@ == a@,
            y@ == b@,
            text_before(a@, b@) == text_before(a@.skip(i as int), b@.skip(i as int)),
        decreases x.len() - i,
    {
        if x[i] != y[i] {
            return x[i] < y[i];
        }
        proof {
            assert(a@.skip(i as int).skip(1) =~= a@.skip(i + 1));
            assert(b@.skip(i as int).skip(1) =~= b@.skip(i + 1));
        }
        i += 1;
    }
    i < y.len()
}

// ---------------------------------------------------------------------------
// Laws
// ---------------------------------------------------------------------------

proof fn lemma_position_behind(a: Seq<char>, b: Seq<char>, c: char, from: int)
    requires
        0 <= from <= b.len(),
    ensures
        position_from(a + b, c, a.len() + from) == a.len() + position_from(b, c, from),
    decreases b.len() - from,
{
    if from < b.len() && b[from] != c {
        lemma_position_behind(a, b, c, from + 1);
    }
}

proof fn lemma_position_before(a: Seq<char>, b: Seq<char>, c: char, from: int)
    requires
        0 <= from <= a.len(),
        position_from(a, c, from) < a.len(),
    ensures
        position_from(a + b, c, from) == position_from(a, c, from),
    decreases a.len() - from,
{
    if from < a.len() && a[from] != c {
        lemma_position_before(a, b, c, from + 1);
    }
}

proof fn lemma_position_exists(s: Seq<char>, c: char, from: int, k: int)
    requires
        0 <= from <= k < s.len(),
        s[k] == c,
    ensures
        from <= position_from(s, c, from) <= k,
    decreases k - from,
{
    if s[from] != c {
        lemma_position_exists(s, c, from + 1, k);
    }
}

proof fn lemma_lines_behind(a: Seq<char>, b: Seq<char>, from: int)
    requires
        0 <= from <= b.len(),
    ensures
        lines_from(a + b, a.len() + from) == lines_from(b, from),
    decreases b.len() - from,
{
    if from < b.len() {
        let end = position_from(b, '\n', from);
        lemma_position_bounds(b, '\n', from);
        lemma_position_behind(a, b, '\n', from);
        if end < b.len() {
            lemma_lines_behind(a, b, end + 1);
            assert((a + b).subrange(a.len() + from, a.len() + end) =~= b.subrange(from, end));
        } else {
            assert((a + b).skip(a.len() + from) =~= b.skip(from));
        }
    }
}

proof fn lemma_lines_before(a: Seq<char>, b: Seq<char>, from: int)
    requires
        0 <= from <= a.len(),
        a.len() > 0,
        a.last() == '\n',
    ensures
        lines_from(a + b, from) == lines_from(a, from) + lines(b),
    decreases a.len() - from,
{
    if from < a.len() {
        let end = position_from(a, '\n', from);
        lemma_position_exists(a, '\n', from, a.len() - 1);
        lemma_position_before(a, b, '\n', from);
        lemma_lines_before(a, b, end + 1);
        assert((a + b).subrange(from, end) =~= a.subrange(from, end));
        let line = seq![strip_carriage_return(a.subrange(from, end))];
        assert(line + (lines_from(a, end + 1) + lines(b)) =~= line + lines_from(a, end + 1) + lines(
            b,
        ));
    } else {
        lemma_lines_behind(a, b, 0);
        assert(lines_from(a, from) + lines(b) =~= lines(b));
    }
}

/// A text that ends with a line feed and another one behind it have the lines of the first, then those
/// of the second.
pub proof fn law_lines_of_joined_texts(a: Seq<char>, b: Seq<char>)
    requires
        a.len() == 0 || a.last() == '\n',
    ensures
        lines(a + b) == lines(a) + lines(b),
{
    if a.len() == 0 {
        assert(a + b =~= b);
        assert(lines(a) + lines(b) =~= lines(b));
    } else {
        lemma_lines_before(a, b, 0);
    }
}

proof fn lemma_closed_line(a: Seq<char>, from: int)
    requires
        0 <= from < a.len(),
        position_from(a, '\n', from) == a.len(),
    ensures
        lines_from(a.push('\n'), from) == seq![strip_carriage_return(a.skip(from))],
        lines_from(a, from) == seq![a.skip(from)],
{
    let s = a.push('\n');
    lemma_position_of_end(a, from);
    assert(s.subrange(from, a.len() as int) =~= a.skip(from));
    let line = seq![strip_carriage_return(a.skip(from))];
    assert(lines_from(s, a.len() as int + 1) =~= Seq::<Seq<char>>::empty());
    assert(line + Seq::<Seq<char>>::empty() =~= line);
}

proof fn lemma_position_of_end(a: Seq<char>, from: int)
    requires
        0 <= from <= a.len(),
        position_from(a, '\n', from) == a.len(),
    ensures
        position_from(a.push('\n'), '\n', from) == a.len(),
    decreases a.len() - from,
{
    if from < a.len() {
        lemma_position_of_end(a, from + 1);
    }
}

proof fn lemma_trimmed_end(s: Seq<char>, c: char)
    requires
        is_white_space(c),
    ensures
        trim(s.push(c)) == trim(s),
    decreases s.len(),
{
    let t = s.push(c);
    if s.len() == 0 {
        assert(t.skip(1) =~= s);
    } else if is_white_space(s[0]) {
        assert(t.skip(1) =~= s.skip(1).push(c));
        lemma_trimmed_end(s.skip(1), c);
    } else {
        assert(t.drop_last() =~= s);
    }
}

/// From any position on, the lines of a text with and without a line feed behind it differ in white
/// space around them and in a blank line at the end alone.
pub proof fn law_line_feed_closes_the_last_line(a: Seq<char>, from: int)
    requires
        0 <= from <= a.len(),
    ensures
        ({
            let open = lines_from(a, from);
            let closed = lines_from(a.push('\n'), from);
            &&& closed.len() == open.len() || closed.len() == open.len() + 1
                && closed.last().len() == 0
            &&& forall|i: int|
                0 <= i < open.len() ==> trim(#[trigger] closed[i]) == trim(#[trigger] open[i])
        }),
    decreases a.len() - from,
{
    let s = a.push('\n');
    lemma_position_bounds(a, '\n', from);
    if from == a.len() {
        assert(s.subrange(from, from) =~= Seq::<char>::empty());
        assert(lines_from(s, from + 1) =~= Seq::<Seq<char>>::empty());
    } else if position_from(a, '\n', from) == a.len() {
        lemma_closed_line(a, from);
        let line = a.skip(from);
        if line.last() == '\r' {
            lemma_trimmed_end(line.drop_last(), '\r');
            assert(line =~= line.drop_last().push('\r'));
        }
    } else {
        let end = position_from(a, '\n', from);
        lemma_position_before(a, seq!['\n'], '\n', from);
        assert(a + seq!['\n'] =~= s);
        assert(s.subrange(from, end) =~= a.subrange(from, end));
        law_line_feed_closes_the_last_line(a, end + 1);
        let rest = lines_from(a, end + 1);
        let closed_rest = lines_from(s, end + 1);
        let open = lines_from(a, from);
        let closed = lines_from(s, from);
        assert forall|i: int| 0 <= i < open.len() implies trim(#[trigger] closed[i]) == trim(
            #[trigger] open[i],
        ) by {
            if i > 0 {
                assert(closed[i] == closed_rest[i - 1]);
                assert(open[i] == rest[i - 1]);
            }
        }
    }
}

/// No text comes before itself.
pub proof fn law_text_order_is_irreflexive(a: Seq<char>)
    ensures
        !text_before(a, a),
    decreases a.len(),
{
    if a.len() > 0 {
        law_text_order_is_irreflexive(a.skip(1));
    }
}

/// What comes before a text comes before every text after it.
pub proof fn law_text_order_is_transitive(a: Seq<char>, b: Seq<char>, c: Seq<char>)
    requires
        text_before(a, b),
        text_before(b, c),
    ensures
        text_before(a, c),
    decreases a.len(),
{
    if a.len() > 0 && a[0] == b[0] && b[0] == c[0] {
        law_text_order_is_transitive(a.skip(1), b.skip(1), c.skip(1));
    }
}

/// Of two different texts, one comes before the other.
pub proof fn law_text_order_is_total(a: Seq<char>, b: Seq<char>)
    requires
        a != b,
    ensures
        text_before(a, b) || text_before(b, a),
    decreases a.len(),
{
    if a.len() == 0 {
        if b.len() == 0 {
            assert(a =~= b);
        }
    } else if b.len() > 0 && a[0] == b[0] {
        if a.skip(1) == b.skip(1) {
            assert(a =~= seq![a[0]] + a.skip(1));
            assert(b =~= seq![b[0]] + b.skip(1));
        }
        law_text_order_is_total(a.skip(1), b.skip(1));
    }
}

} // verus!
