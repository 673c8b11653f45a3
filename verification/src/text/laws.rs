//! What holds of templates, lines, fields and numbers.

use super::{
    all_digits, decimal, digits_value, fields, fields_from, fill, is_digit, is_white_space, join,
    lemma_lines_behind, lemma_position_behind, lemma_position_bounds, lines, number, position_from,
    replace_all, signed_decimal, text_before, trim, trim_end, trim_start,
};
use vstd::prelude::*;

verus! {

// ---------------------------------------------------------------------------
// Templates
// ---------------------------------------------------------------------------

/// A template without an opening brace stays as it is.
pub proof fn law_plain_templates_stay(template: Seq<char>, args: Seq<Seq<char>>)
    requires
        forall|i: int| 0 <= i < template.len() ==> #[trigger] template[i] != '{',
    ensures
        fill(template, args) == template,
    decreases template.len(),
{
    if template.len() > 0 {
        let rest = template.skip(1);
        assert(template[0] != '{');
        assert forall|i: int| 0 <= i < rest.len() implies #[trigger] rest[i] != '{' by {
            assert(rest[i] == template[i + 1]);
        }
        law_plain_templates_stay(rest, args);
        assert(seq![template[0]] + rest =~= template);
    } else {
        assert(fill(template, args) =~= template);
    }
}

proof fn lemma_plain_prefix(before: Seq<char>, after: Seq<char>, args: Seq<Seq<char>>)
    requires
        forall|i: int| 0 <= i < before.len() ==> #[trigger] before[i] != '{',
    ensures
        fill(before + after, args) == before + fill(after, args),
    decreases before.len(),
{
    if before.len() == 0 {
        assert(before + after =~= after);
        assert(before + fill(after, args) =~= fill(after, args));
    } else {
        let rest = before.skip(1);
        assert(before[0] != '{');
        assert forall|i: int| 0 <= i < rest.len() implies #[trigger] rest[i] != '{' by {
            assert(rest[i] == before[i + 1]);
        }
        lemma_plain_prefix(rest, after, args);
        assert((before + after).skip(1) =~= rest + after);
        assert((before + after)[0] == before[0]);
        assert(seq![before[0]] + (rest + fill(after, args)) =~= before + fill(after, args));
    }
}

/// The hole `{d}` is filled with the argument that the digit stands for, counted from 0; what stands
/// before the first brace stays, and what stands behind the hole is filled in the same way.
pub proof fn law_holes_are_filled(
    before: Seq<char>,
    d: char,
    after: Seq<char>,
    args: Seq<Seq<char>>,
)
    requires
        forall|i: int| 0 <= i < before.len() ==> #[trigger] before[i] != '{',
        '0' <= d <= '9',
        (d as int - '0' as int) < args.len(),
    ensures
        fill(before + (seq!['{', d, '}'] + after), args) == before + (args[d as int - '0' as int]
            + fill(after, args)),
{
    let hole = seq!['{', d, '}'] + after;
    lemma_plain_prefix(before, hole, args);
    assert(hole.skip(3) =~= after);
    assert(hole[0] == '{' && hole[1] == d && hole[2] == '}');
}

/// A brace that opens no hole stays.
pub proof fn law_other_braces_stay(before: Seq<char>, after: Seq<char>, args: Seq<Seq<char>>)
    requires
        forall|i: int| 0 <= i < before.len() ==> #[trigger] before[i] != '{',
        after.len() < 2 || after[1] != '}' || !('0' <= after[0] <= '9') || after[0] as int
            - '0' as int >= args.len(),
    ensures
        fill(before + (seq!['{'] + after), args) == before + (seq!['{'] + fill(after, args)),
{
    let rest = seq!['{'] + after;
    lemma_plain_prefix(before, rest, args);
    assert(rest.skip(1) =~= after);
    assert(rest[0] == '{');
    if after.len() >= 2 {
        assert(rest[1] == after[0] && rest[2] == after[1]);
    }
}

/// Joined parts are the parts in their order with the separator between each two of them.
pub proof fn law_separators_stand_between_the_parts(
    first: Seq<Seq<char>>,
    second: Seq<Seq<char>>,
    part: Seq<char>,
    separator: Seq<char>,
)
    ensures
        join(Seq::empty(), separator) == Seq::<char>::empty(),
        join(seq![part], separator) == part,
        first.len() > 0 && second.len() > 0 ==> join(first + second, separator) == join(
            first,
            separator,
        ) + separator + join(second, separator),
    decreases second.len(),
{
    if first.len() > 0 && second.len() > 0 {
        let all = first + second;
        let rest = second.drop_last();
        assert(all.drop_last() =~= first + rest);
        assert(all.last() == second.last());
        if rest.len() == 0 {
            assert(first + rest =~= first);
        } else {
            law_separators_stand_between_the_parts(first, rest, part, separator);
            assert(join(first, separator) + separator + join(rest, separator) + separator
                + second.last() =~= join(first, separator) + separator + (join(rest, separator)
                + separator + second.last()));
        }
    }
}

/// A text that does not hold `from` stays as it is when `from` is replaced.
pub proof fn law_other_texts_stay(s: Seq<char>, from: Seq<char>, to: Seq<char>)
    requires
        forall|i: int|
            0 <= i <= s.len() - from.len() ==> #[trigger] s.subrange(i, i + from.len()) != from,
    ensures
        replace_all(s, from, to) == s,
    decreases s.len(),
{
    if from.len() > 0 && s.len() >= from.len() {
        assert(s.subrange(0, 0int + from.len()) =~= s.take(from.len() as int));
        let rest = s.skip(1);
        assert forall|i: int| 0 <= i <= rest.len() - from.len() implies #[trigger] rest.subrange(
            i,
            i + from.len(),
        ) != from by {
            assert(rest.subrange(i, i + from.len()) =~= s.subrange(i + 1, i + 1 + from.len()));
        }
        law_other_texts_stay(rest, from, to);
        assert(seq![s[0]] + rest =~= s);
    }
}

/// Each occurrence of `from` is replaced, from the left: what stands before the first stays, and what
/// stands behind it is treated in the same way.
pub proof fn law_occurrences_are_replaced(
    before: Seq<char>,
    after: Seq<char>,
    from: Seq<char>,
    to: Seq<char>,
)
    requires
        from.len() > 0,
        forall|i: int|
            0 <= i < before.len() ==> #[trigger] (before + (from + after)).subrange(
                i,
                i + from.len(),
            ) != from,
    ensures
        replace_all(before + (from + after), from, to) == before + (to + replace_all(
            after,
            from,
            to,
        )),
    decreases before.len(),
{
    let s = before + (from + after);
    if before.len() == 0 {
        assert(s =~= from + after);
        assert(s.take(from.len() as int) =~= from);
        assert(s.skip(from.len() as int) =~= after);
        assert(before + (to + replace_all(after, from, to)) =~= to + replace_all(after, from, to));
    } else {
        let rest = before.skip(1);
        let t = rest + (from + after);
        assert(s.skip(1) =~= t);
        assert(s.subrange(0, 0int + from.len()) =~= s.take(from.len() as int));
        assert forall|i: int| 0 <= i < rest.len() implies #[trigger] t.subrange(i, i + from.len())
            != from by {
            assert(t.subrange(i, i + from.len()) =~= s.subrange(i + 1, i + 1 + from.len()));
        }
        law_occurrences_are_replaced(rest, after, from, to);
        assert(seq![before[0]] + (rest + (to + replace_all(after, from, to))) =~= before + (to
            + replace_all(after, from, to)));
    }
}

// ---------------------------------------------------------------------------
// Lines and fields
// ---------------------------------------------------------------------------

proof fn lemma_no_position(s: Seq<char>, c: char, from: int)
    requires
        0 <= from <= s.len(),
        forall|i: int| from <= i < s.len() ==> #[trigger] s[i] != c,
    ensures
        position_from(s, c, from) == s.len(),
    decreases s.len() - from,
{
    if from < s.len() {
        lemma_no_position(s, c, from + 1);
    }
}

proof fn lemma_first_position(s: Seq<char>, c: char, from: int, k: int)
    requires
        0 <= from <= k < s.len(),
        s[k] == c,
        forall|i: int| from <= i < k ==> #[trigger] s[i] != c,
    ensures
        position_from(s, c, from) == k,
    decreases k - from,
{
    if from < k {
        lemma_first_position(s, c, from + 1, k);
    }
}

/// A text is cut into lines at its line feeds, which do not belong to them, nor does a carriage return
/// right before one. What follows the last line feed is a line unless it is empty.
pub proof fn law_line_feeds_end_lines(line: Seq<char>, rest: Seq<char>)
    requires
        forall|i: int| 0 <= i < line.len() ==> #[trigger] line[i] != '\n',
    ensures
        lines(Seq::empty()) == Seq::<Seq<char>>::empty(),
        line.len() > 0 ==> lines(line) == seq![line],
        line.len() == 0 || line.last() != '\r' ==> lines(line + (seq!['\n'] + rest)) == seq![line]
            + lines(rest),
        lines(line.push('\r') + (seq!['\n'] + rest)) == seq![line] + lines(rest),
{
    if line.len() > 0 {
        lemma_no_position(line, '\n', 0);
        assert(line.skip(0) =~= line);
    }
    let s = line + (seq!['\n'] + rest);
    let n = line.len() as int;
    assert(s =~= line.push('\n') + rest);
    assert forall|i: int| 0 <= i < n implies #[trigger] s[i] != '\n' by {
        assert(s[i] == line[i]);
    }
    lemma_first_position(s, '\n', 0, n);
    assert(s.subrange(0, n) =~= line);
    lemma_lines_behind(line.push('\n'), rest, 0);
    let closed = line.push('\r');
    let t = closed + (seq!['\n'] + rest);
    assert(t =~= closed.push('\n') + rest);
    assert forall|i: int| 0 <= i < n + 1 implies #[trigger] t[i] != '\n' by {
        assert(t[i] == closed[i]);
    }
    lemma_first_position(t, '\n', 0, n + 1);
    assert(t.subrange(0, n + 1) =~= closed);
    assert(closed.drop_last() =~= line);
    lemma_lines_behind(closed.push('\n'), rest, 0);
}

proof fn lemma_trim_start(blank: Seq<char>, s: Seq<char>)
    requires
        forall|i: int| 0 <= i < blank.len() ==> is_white_space(#[trigger] blank[i]),
    ensures
        trim_start(blank + s) == trim_start(s),
    decreases blank.len(),
{
    if blank.len() == 0 {
        assert(blank + s =~= s);
    } else {
        let rest = blank.skip(1);
        assert(is_white_space(blank[0]));
        assert forall|i: int| 0 <= i < rest.len() implies is_white_space(#[trigger] rest[i]) by {
            assert(rest[i] == blank[i + 1]);
        }
        lemma_trim_start(rest, s);
        assert((blank + s)[0] == blank[0]);
        assert((blank + s).skip(1) =~= rest + s);
    }
}

proof fn lemma_trim_end(s: Seq<char>, blank: Seq<char>)
    requires
        forall|i: int| 0 <= i < blank.len() ==> is_white_space(#[trigger] blank[i]),
    ensures
        trim_end(s + blank) == trim_end(s),
    decreases blank.len(),
{
    if blank.len() == 0 {
        assert(s + blank =~= s);
    } else {
        let rest = blank.drop_last();
        assert(is_white_space(blank[blank.len() - 1]));
        assert forall|i: int| 0 <= i < rest.len() implies is_white_space(#[trigger] rest[i]) by {
            assert(rest[i] == blank[i]);
        }
        lemma_trim_end(s, rest);
        assert((s + blank).last() == blank.last());
        assert((s + blank).drop_last() =~= s + rest);
    }
}

/// White space around a text is taken off, all of it, and nothing else.
pub proof fn law_white_space_around_is_taken_off(
    before: Seq<char>,
    s: Seq<char>,
    after: Seq<char>,
)
    requires
        forall|i: int| 0 <= i < before.len() ==> is_white_space(#[trigger] before[i]),
        forall|i: int| 0 <= i < after.len() ==> is_white_space(#[trigger] after[i]),
        s.len() > 0 ==> !is_white_space(s[0]) && !is_white_space(s.last()),
    ensures
        trim(before + s + after) == s,
{
    assert(before + s + after =~= before + (s + after));
    lemma_trim_start(before, s + after);
    if s.len() > 0 {
        assert((s + after)[0] == s[0]);
        assert(trim_start(s + after) == s + after);
        lemma_trim_end(s, after);
    } else {
        assert(s + after =~= after + s);
        lemma_trim_start(after, s);
        assert(trim_start(s) == s);
    }
}

/// White space is what Unicode calls so: the controls from tab to carriage return, the space, and a
/// few wider spaces and breaks.
pub proof fn law_white_space(c: char)
    ensures
        is_white_space(c) <==> {
            ||| 9 <= c as u32 <= 13
            ||| c as u32 == 32
            ||| c as u32 == 133
            ||| c as u32 == 160
            ||| c as u32 == 5760
            ||| 8192 <= c as u32 <= 8202
            ||| c as u32 == 8232
            ||| c as u32 == 8233
            ||| c as u32 == 8239
            ||| c as u32 == 8287
            ||| c as u32 == 12288
        },
{
}

proof fn lemma_fields_behind(a: Seq<char>, b: Seq<char>, separator: char, from: int)
    requires
        0 <= from <= b.len(),
    ensures
        fields_from(a + b, separator, a.len() + from) == fields_from(b, separator, from),
    decreases b.len() - from,
{
    let end = position_from(b, separator, from);
    lemma_position_bounds(b, separator, from);
    lemma_position_behind(a, b, separator, from);
    assert((a + b).subrange(a.len() + from, a.len() + end) =~= b.subrange(from, end));
    if end < b.len() {
        lemma_fields_behind(a, b, separator, end + 1);
    }
}

/// A text is cut into fields at its separators; white space around a field is taken off, and a field
/// that is then empty is left out.
pub proof fn law_separators_part_the_fields(field: Seq<char>, rest: Seq<char>, separator: char)
    requires
        forall|i: int| 0 <= i < field.len() ==> #[trigger] field[i] != separator,
    ensures
        fields(field, separator) == if trim(field).len() == 0 {
            Seq::<Seq<char>>::empty()
        } else {
            seq![trim(field)]
        },
        fields(field + (seq![separator] + rest), separator) == fields(field, separator) + fields(
            rest,
            separator,
        ),
{
    lemma_no_position(field, separator, 0);
    assert(field.subrange(0, field.len() as int) =~= field);
    let none = Seq::<Seq<char>>::empty();
    assert(seq![trim(field)] + none =~= seq![trim(field)]);
    let s = field + (seq![separator] + rest);
    let n = field.len() as int;
    assert(s =~= field.push(separator) + rest);
    assert forall|i: int| 0 <= i < n implies #[trigger] s[i] != separator by {
        assert(s[i] == field[i]);
    }
    lemma_first_position(s, separator, 0, n);
    assert(s.subrange(0, n) =~= field);
    lemma_fields_behind(field.push(separator), rest, separator, 0);
    assert(none + fields(rest, separator) =~= fields(rest, separator));
}

// ---------------------------------------------------------------------------
// Numbers
// ---------------------------------------------------------------------------

/// A digit behind a number makes it ten times as large and adds its own value.
pub proof fn law_digits_count_by_their_place(s: Seq<char>, d: char)
    requires
        '0' <= d <= '9',
    ensures
        digits_value(Seq::empty()) == 0,
        digits_value(s.push(d)) == digits_value(s) * 10 + (d as int - '0' as int),
{
    assert(s.push(d).drop_last() =~= s);
}

/// A text is a number exactly if it holds one or more digits, nothing else, and its value is at most
/// the limit; its value is then that of the digits.
pub proof fn law_numbers_are_digits(s: Seq<char>, max: nat)
    ensures
        number(s, max) == if s.len() > 0 && (forall|i: int|
            0 <= i < s.len() ==> '0' <= #[trigger] s[i] <= '9') && digits_value(s) <= max {
            Some(digits_value(s))
        } else {
            None
        },
{
    assert(all_digits(s) <==> forall|i: int| 0 <= i < s.len() ==> '0' <= #[trigger] s[i] <= '9') by {
        if forall|i: int| 0 <= i < s.len() ==> '0' <= #[trigger] s[i] <= '9' {
            assert forall|i: int| 0 <= i < s.len() implies is_digit(#[trigger] s[i]) by {}
        }
        if all_digits(s) {
            assert forall|i: int| 0 <= i < s.len() implies '0' <= #[trigger] s[i] <= '9' by {
                assert(is_digit(s[i]));
            }
        }
    }
}

/// A number is written with digits that stand for it, without a leading zero.
pub proof fn law_decimals_can_be_read(n: nat)
    ensures
        decimal(n).len() > 0,
        all_digits(decimal(n)),
        digits_value(decimal(n)) == n,
        n > 0 ==> decimal(n)[0] != '0',
        n < 10 ==> decimal(n).len() == 1,
    decreases n,
{
    if n < 10 {
        assert(decimal(n).drop_last() =~= Seq::<char>::empty());
        assert(digits_value(decimal(n).drop_last()) == 0);
    } else {
        let rest = decimal(n / 10);
        law_decimals_can_be_read(n / 10);
        assert(decimal(n).drop_last() =~= rest);
        assert forall|i: int| 0 <= i < decimal(n).len() implies is_digit(
            #[trigger] decimal(n)[i],
        ) by {
            if i < rest.len() {
                assert(is_digit(rest[i]));
                assert(decimal(n)[i] == rest[i]);
            }
        }
        assert(decimal(n)[0] == rest[0]);
        assert(n == (n / 10) * 10 + n % 10);
    }
}

/// A negative number is written with a minus sign before it.
pub proof fn law_signs_are_written(n: int)
    ensures
        n >= 0 ==> signed_decimal(n) == decimal(n as nat),
        n < 0 ==> signed_decimal(n).len() > 1 && signed_decimal(n)[0] == '-' && signed_decimal(
            n,
        ).skip(1) == decimal((-n) as nat),
{
    if n < 0 {
        law_decimals_can_be_read((-n) as nat);
        assert(signed_decimal(n).skip(1) =~= decimal((-n) as nat));
    }
}

/// A text comes before another exactly if it is a proper beginning of it, or if at the first place
/// where they differ its character is the smaller one.
pub proof fn law_the_first_difference_orders_texts(a: Seq<char>, b: Seq<char>, k: int)
    requires
        0 <= k <= a.len(),
        k <= b.len(),
        forall|i: int| 0 <= i < k ==> #[trigger] a[i] == #[trigger] b[i],
        k < a.len() && k < b.len() ==> a[k] != b[k],
    ensures
        text_before(a, b) <==> if k == a.len() || k == b.len() {
            a.len() < b.len() && k == a.len()
        } else {
            a[k] < b[k]
        },
    decreases k,
{
    if k > 0 {
        assert(a[0] == b[0]);
        let (x, y) = (a.skip(1), b.skip(1));
        assert forall|i: int| 0 <= i < k - 1 implies #[trigger] x[i] == #[trigger] y[i] by {
            assert(a[i + 1] == b[i + 1]);
        }
        law_the_first_difference_orders_texts(x, y, k - 1);
    }
}

} // verus!
