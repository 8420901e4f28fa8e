use qbit_killswitch::text::{
    chars_of, concat2, decimal, is_whitespace, same_text, string_of, take_chars, trim,
    trim_end_matching, trim_start_matching,
};

#[test]
fn decimal_writes_numbers_like_format() {
    assert_eq!(decimal(0), "0");
    assert_eq!(decimal(7), "7");
    assert_eq!(decimal(10), "10");
    assert_eq!(decimal(1234567890), "1234567890");
    assert_eq!(decimal(u64::MAX), u64::MAX.to_string());
}

#[test]
fn trim_strips_unicode_whitespace_at_both_ends() {
    assert_eq!(trim("  Ok.\r\n"), "Ok.");
    assert_eq!(trim("\u{3000}x y\u{85}"), "x y");
    assert_eq!(trim("   "), "");
    assert_eq!(trim(""), "");
    assert_eq!(trim("a"), "a");
}

#[test]
fn trim_keeps_inner_and_non_whitespace() {
    assert_eq!(trim("\t a\u{a0}b \n"), "a\u{a0}b");
    assert_eq!(trim("\u{200b}x"), "\u{200b}x");
}

#[test]
fn take_chars_counts_characters_not_bytes() {
    assert_eq!(take_chars(&"héllo".to_string(), 2), "hé");
    assert_eq!(take_chars(&"ab".to_string(), 5), "ab");
}

#[test]
fn trim_matching_single_char() {
    assert_eq!(trim_end_matching("http://x:8080///", '/'), "http://x:8080");
    assert_eq!(trim_start_matching("vv1.2.3", 'v'), "1.2.3");
    assert_eq!(trim_start_matching("1.2.3", 'v'), "1.2.3");
}

#[test]
fn small_helpers() {
    assert_eq!(chars_of("añb"), vec!['a', 'ñ', 'b']);
    assert_eq!(string_of(&vec!['a', 'b', 'c', 'd'], 1, 3), "bc");
    assert_eq!(concat2("ab", "cd"), "abcd");
    assert!(same_text(&"x".to_string(), "x"));
    assert!(!same_text(&"x".to_string(), "y"));
}

#[test]
fn whitespace_is_the_unicode_white_space_set() {
    let ws = [
        '\u{9}', '\u{a}', '\u{b}', '\u{c}', '\u{d}', ' ', '\u{85}', '\u{a0}', '\u{1680}', '\u{2000}',
        '\u{2005}', '\u{200a}', '\u{2028}', '\u{2029}', '\u{202f}', '\u{205f}', '\u{3000}',
    ];
    for c in ws {
        assert!(is_whitespace(c));
        assert!(c.is_whitespace());
    }
    for c in ['a', '\u{8}', '\u{e}', '\u{180e}', '\u{200b}', '\u{feff}', '\u{1fff}', '\u{200c}'] {
        assert!(!is_whitespace(c));
        assert_eq!(c.is_whitespace(), is_whitespace(c));
    }
    for n in 0u32..0x3100 {
        if let Some(c) = char::from_u32(n) {
            assert_eq!(is_whitespace(c), c.is_whitespace(), "{n:#x}");
        }
    }
}
