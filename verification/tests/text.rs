use chat_history::text::{
    chars_of, decimal_string, is_whitespace, normalize_searchable_string, same_text, text_between,
    trim,
};

#[test]
fn trim_removes_white_space_at_both_ends() {
    assert_eq!(trim("  a b \t\r\n"), "a b");
    assert_eq!(trim("\u{a0}x\u{3000}"), "x");
    assert_eq!(trim(""), "");
    assert_eq!(trim(" \n "), "");
    assert_eq!(trim("abc"), "abc");
}

#[test]
fn trim_agrees_with_the_standard_library() {
    for s in ["", " ", "a", " a", "a ", "\u{85}a\u{2028}", "\u{200b}a\u{200b}", "a \u{feff}"] {
        assert_eq!(trim(s), s.trim());
    }
}

#[test]
fn normalize_collapses_separators_and_trims() {
    assert_eq!(normalize_searchable_string("Sending you a text!"), "Sending you a text!");
    assert_eq!(normalize_searchable_string("a\u{a0}\u{a0}b"), "a b");
    assert_eq!(normalize_searchable_string("a\u{200b}b"), "a b");
    assert_eq!(normalize_searchable_string("a\n\n b"), "a b");
    assert_eq!(normalize_searchable_string("  a   b  "), "a b");
    assert_eq!(normalize_searchable_string("\u{2028}a\u{2029}"), "a");
    assert_eq!(normalize_searchable_string(""), "");
    assert_eq!(normalize_searchable_string(" \n\u{a0}"), "");
}

#[test]
fn normalize_leaves_tabs_inside_and_trims_them_outside() {
    assert_eq!(normalize_searchable_string("a\tb"), "a\tb");
    assert_eq!(normalize_searchable_string("\ta\t"), "a");
}

#[test]
fn decimal_string_writes_numbers() {
    assert_eq!(decimal_string(0), "0");
    assert_eq!(decimal_string(7), "7");
    assert_eq!(decimal_string(10), "10");
    assert_eq!(decimal_string(-1), "-1");
    assert_eq!(decimal_string(1699812983), "1699812983");
    assert_eq!(decimal_string(780327027359649707), "780327027359649707");
    assert_eq!(decimal_string(i64::MAX), "9223372036854775807");
    assert_eq!(decimal_string(i64::MIN), "-9223372036854775808");
}

#[test]
fn decimal_string_agrees_with_the_standard_library() {
    for n in [-1000_i64, -999, -10, -9, 9, 99, 100, 101, 123456789012345678] {
        assert_eq!(decimal_string(n), n.to_string());
    }
}

#[test]
fn chars_and_back() {
    let chars = chars_of("añ→b");
    assert_eq!(chars, vec!['a', 'ñ', '→', 'b']);
    assert_eq!(text_between(&chars, 1, 3), "ñ→");
    assert_eq!(text_between(&chars, 0, 4), "añ→b");
    assert_eq!(text_between(&chars, 2, 2), "");
}

#[test]
fn same_text_compares_characters() {
    assert!(same_text("abc", "abc"));
    assert!(!same_text("abc", "abd"));
    assert!(!same_text("abc", "ab"));
    assert!(same_text("", ""));
}

#[test]
fn white_space_is_what_the_standard_library_takes_for_it() {
    for c in '\0'..=char::MAX {
        assert_eq!(is_whitespace(c), c.is_whitespace(), "U+{:04X}", c as u32);
    }
}

#[test]
fn white_space_by_name() {
    for c in ['\t', '\n', '\u{b}', '\u{c}', '\r', ' ', '\u{85}', '\u{a0}', '\u{1680}', '\u{2000}',
        '\u{2005}', '\u{200a}', '\u{2028}', '\u{2029}', '\u{202f}', '\u{205f}', '\u{3000}'] {
        assert!(is_whitespace(c));
    }
    for c in ['a', '0', '\u{8}', '\u{e}', '\u{200b}', '\u{180e}', '\u{feff}', '\u{2060}', '\u{3001}'] {
        assert!(!is_whitespace(c));
    }
}

#[test]
fn normalize_of_nothing_is_nothing() {
    assert_eq!(normalize_searchable_string(""), "");
}
