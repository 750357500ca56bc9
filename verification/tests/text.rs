use shotpaste::text::{
    chars_of, decimal, last_line, replace_char, same_text, split, strip_prefix, text_of, trim,
    white, zero_fill,
};

#[test]
fn decimal_writes_numbers_without_leading_zeros() {
    assert_eq!(decimal(0), "0");
    assert_eq!(decimal(9), "9");
    assert_eq!(decimal(10), "10");
    assert_eq!(decimal(907), "907");
    assert_eq!(decimal(1234567890), "1234567890");
    assert_eq!(decimal(u64::MAX), "18446744073709551615");
}

#[test]
fn zero_fill_adds_zeros_in_front() {
    assert_eq!(zero_fill(7, 2), "07");
    assert_eq!(zero_fill(12, 2), "12");
    assert_eq!(zero_fill(123, 2), "123");
    assert_eq!(zero_fill(0, 4), "0000");
    assert_eq!(zero_fill(5, 0), "5");
}

#[test]
fn chars_and_text_are_inverse() {
    let chars = chars_of("aé…z");
    assert_eq!(chars, vec!['a', 'é', '…', 'z']);
    assert_eq!(text_of(&chars, 0, 4), "aé…z");
    assert_eq!(text_of(&chars, 1, 3), "é…");
    assert_eq!(text_of(&chars, 2, 2), "");
}

#[test]
fn same_text_compares_all_characters() {
    assert!(same_text("", ""));
    assert!(same_text("png", "png"));
    assert!(!same_text("png", "PNG"));
    assert!(!same_text("png", "pn"));
}

#[test]
fn replace_char_replaces_every_occurrence() {
    assert_eq!(replace_char("a'b''c", '\'', "''"), "a''b''''c");
    assert_eq!(replace_char("plain", '\'', "''"), "plain");
    assert_eq!(replace_char("", 'x', "y"), "");
    assert_eq!(replace_char("xx", 'x', ""), "");
}

#[test]
fn white_agrees_with_unicode_on_every_character() {
    for code in 0..=0x10ffffu32 {
        if let Some(c) = char::from_u32(code) {
            assert_eq!(white(c), c.is_whitespace(), "{:?}", c);
        }
    }
}

#[test]
fn trim_removes_white_space_at_both_ends() {
    assert_eq!(trim("  a b \r\n"), "a b");
    assert_eq!(trim("\u{a0}x\u{3000}"), "x");
    assert_eq!(trim(" \t "), "");
    assert_eq!(trim(""), "");
}

#[test]
fn split_keeps_empty_pieces() {
    assert_eq!(split("Ready|now|0", '|'), vec!["Ready", "now", "0"]);
    assert_eq!(split("", '|'), vec![""]);
    assert_eq!(split("a||", '|'), vec!["a", "", ""]);
}

#[test]
fn last_line_ignores_a_final_line_break() {
    assert_eq!(last_line("one\ntwo\n"), "two");
    assert_eq!(last_line("one\ntwo"), "two");
    assert_eq!(last_line("one\n\n"), "");
    assert_eq!(last_line(""), "");
}

#[test]
fn strip_prefix_answers_the_rest() {
    assert_eq!(strip_prefix("REGISTERED|Ready", "REGISTERED|"), Some("Ready".to_string()));
    assert_eq!(strip_prefix("abc", "abc"), Some(String::new()));
    assert_eq!(strip_prefix("ab", "abc"), None);
    assert_eq!(strip_prefix("xbc", "ab"), None);
}
