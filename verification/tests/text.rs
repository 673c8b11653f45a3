//! Text primitives.

use diesel_guard::text::{
    comes_before, decimal_text, fill_template, join_strings, parse_number, replace_text,
    signed_decimal_text, split_fields, split_lines, to_chars, trim_text,
};

fn strings(parts: &[&str]) -> Vec<String> {
    parts.iter().map(|p| p.to_string()).collect()
}

#[test]
fn templates_are_filled_once() {
    assert_eq!(fill_template("{1}-{0}{0} {2}", &vec!["a", "{0}"]), "{0}-aa {2}");
    assert_eq!(fill_template("{x} {", &vec!["a"]), "{x} {");
}

#[test]
fn lines_end_at_line_breaks() {
    for text in ["", "a", "a\n", "a\n\nb", "\n", "a\r\nb\r", "é\n😀"] {
        let expected: Vec<&str> = text.lines().collect();
        assert_eq!(split_lines(text), expected, "{text:?}");
    }
}

#[test]
fn fields_are_trimmed_and_not_empty() {
    assert_eq!(split_fields(" a, ,b ,", ','), vec!["a", "b"]);
    assert!(split_fields(" , ", ',').is_empty());
}

#[test]
fn white_space_is_trimmed_at_both_ends() {
    for text in ["", " ", "\u{a0}x\u{2003}", "\t a b\r\n"] {
        assert_eq!(trim_text(text), text.trim(), "{text:?}");
    }
}

#[test]
fn numbers_are_written_in_decimal() {
    for n in [0u64, 7, 10, 1_000_000, u64::MAX] {
        assert_eq!(decimal_text(n), n.to_string());
    }
    for n in [0i32, -1, i32::MIN, i32::MAX] {
        assert_eq!(signed_decimal_text(n), n.to_string());
    }
}

#[test]
fn numbers_are_read_up_to_a_limit() {
    let read = |text: &str, max: u64| parse_number(&to_chars(text), 0, text.len(), max);
    assert_eq!(read("42", 100), Some(42));
    assert_eq!(read("101", 100), None);
    assert_eq!(read("", 100), None);
    assert_eq!(read("4x", 100), None);
    assert_eq!(read("18446744073709551615", u64::MAX), Some(u64::MAX));
    assert_eq!(read("18446744073709551616", u64::MAX), None);
}

#[test]
fn texts_are_ordered_by_their_characters() {
    let texts = ["", "a", "aa", "b", "é", "😀", "\u{ffff}"];
    for a in texts {
        for b in texts {
            assert_eq!(comes_before(a, b), a < b, "{a:?} {b:?}");
        }
    }
}

#[test]
fn parts_are_joined_and_replaced() {
    assert_eq!(join_strings(&strings(&["a", "b", "c"]), 1, ", "), "b, c");
    assert_eq!(join_strings(&strings(&[]), 0, ", "), "");
    assert_eq!(replace_text("aaa", "aa", "b"), "ba");
    assert_eq!(replace_text("a_b_", "_", ""), "ab");
}
