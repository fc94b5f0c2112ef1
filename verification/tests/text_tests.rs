use lib::text::{
    column_of, joined, contains_char, i32_text, lower_equals, parse_i32, parse_usize, prompt_answer,
    same_text, trim_text, usize_text, yes_no_answer, yes_no_hint,
};

#[test]
fn prompt_takes_the_trimmed_line_or_the_default() {
    assert_eq!(prompt_answer("  hello world \n", "x"), "hello world");
    assert_eq!(prompt_answer("\n", "0"), "0");
    assert_eq!(prompt_answer(" \t\u{3000}\n", "1"), "1");
    assert_eq!(prompt_answer("", ""), "");
    assert_eq!(prompt_answer("exit\n", "dir"), "exit");
}

#[test]
fn yes_no_accepts_the_documented_words() {
    for w in ["y", "Y", "yes", "YES", "Yes", "yEs"] {
        assert!(yes_no_answer(w, false), "{}", w);
        assert!(yes_no_answer(&format!(" {}\n", w), false), "{}", w);
    }
    for w in ["n", "N", "no", "NO", "nope", "ye", "yess", "1", "是"] {
        assert!(!yes_no_answer(w, true), "{}", w);
    }
}

#[test]
fn yes_no_blank_takes_the_default() {
    assert!(yes_no_answer("\n", true));
    assert!(!yes_no_answer("\n", false));
    assert!(yes_no_answer("   ", true));
    assert!(!yes_no_answer("", false));
}

#[test]
fn yes_no_hint_marks_the_default() {
    assert_eq!(yes_no_hint(true), "Y/n");
    assert_eq!(yes_no_hint(false), "y/N");
}

#[test]
fn unsigned_numbers_parse_as_rust_does() {
    assert_eq!(parse_usize("20"), Some(20));
    assert_eq!(parse_usize("+7"), Some(7));
    assert_eq!(parse_usize("007"), Some(7));
    assert_eq!(parse_usize("0"), Some(0));
    assert_eq!(parse_usize(""), None);
    assert_eq!(parse_usize("+"), None);
    assert_eq!(parse_usize("-1"), None);
    assert_eq!(parse_usize(" 5"), None);
    assert_eq!(parse_usize("5a"), None);
    assert_eq!(parse_usize("18446744073709551616"), None);
    assert_eq!(parse_usize("18446744073709551615"), Some(usize::MAX));
}

#[test]
fn signed_numbers_parse_as_rust_does() {
    assert_eq!(parse_i32("42"), Some(42));
    assert_eq!(parse_i32("-42"), Some(-42));
    assert_eq!(parse_i32("+3"), Some(3));
    assert_eq!(parse_i32("-0"), Some(0));
    assert_eq!(parse_i32("2147483647"), Some(i32::MAX));
    assert_eq!(parse_i32("2147483648"), None);
    assert_eq!(parse_i32("-2147483648"), Some(i32::MIN));
    assert_eq!(parse_i32("-2147483649"), None);
    assert_eq!(parse_i32("-"), None);
    assert_eq!(parse_i32("--1"), None);
    assert_eq!(parse_i32(""), None);
}

#[test]
fn numbers_print_in_decimal_and_parse_back() {
    assert_eq!(usize_text(0), "0");
    assert_eq!(usize_text(120), "120");
    assert_eq!(i32_text(-15), "-15");
    assert_eq!(i32_text(i32::MIN), "-2147483648");
    for n in [0usize, 1, 9, 10, 99, 100, 12345, usize::MAX] {
        assert_eq!(parse_usize(&usize_text(n)), Some(n));
    }
    for n in [0i32, -1, 7, -2147483648, 2147483647] {
        assert_eq!(parse_i32(&i32_text(n)), Some(n));
    }
}

#[test]
fn trimming_removes_unicode_whitespace_at_both_ends() {
    assert_eq!(trim_text("\u{00A0} a b \u{2003}\n"), "a b");
    assert_eq!(trim_text("   "), "");
    assert_eq!(trim_text("x"), "x");
}

#[test]
fn small_text_helpers() {
    assert_eq!(joined("ab", "cd"), "abcd");
    assert!(contains_char("user/repo", '/'));
    assert!(!contains_char("repo", '/'));
    assert!(lower_equals("YeS", "yes"));
    assert!(!lower_equals("yes!", "yes"));
    assert!(same_text("9", "9"));
    assert!(!same_text("9", "09"));
}

#[test]
fn columns_are_cut_by_bytes_at_character_boundaries() {
    assert_eq!(column_of("0123456789abcdef", 8, 8), "01234567");
    assert_eq!(column_of("abc", 8, 8), "abc");
    assert_eq!(column_of("12345678", 8, 8), "12345678");
    assert_eq!(column_of("张三李四王五", 12, 12), "张三李四");
    assert_eq!(column_of("a张三李四王", 12, 12), "a张三李");
    assert_eq!(column_of("张三李四", 12, 12), "张三李四");
    let subject = "x".repeat(41);
    assert_eq!(column_of(&subject, 40, 37), "x".repeat(37));
    assert_eq!(column_of(&"y".repeat(40), 40, 37), "y".repeat(40));
    assert_eq!(column_of("é😀z", 2, 2), "é");
    assert_eq!(column_of("", 0, 0), "");
}
