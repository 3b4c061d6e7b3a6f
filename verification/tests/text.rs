use sparecycles::text::{
    contains, ends_with, entries, lines, starts_with, tail, to_decimal, to_signed_decimal,
    to_zero_padded, trim,
};

#[test]
fn white_space_is_trimmed_at_both_ends() {
    for sample in ["", " ", "a", "  a b \n", "\u{3000}x\u{a0}", "\u{200b}x", "\t\r\n"] {
        assert_eq!(trim(sample), sample.trim());
    }
}

#[test]
fn lines_end_in_either_way() {
    for sample in ["", "\n", "a", "a\n", "a\r\nb", "a\n\nb\r\n", "a\rb\n", "a\r", "\r\n\r\n"] {
        let expected: Vec<String> = sample.lines().map(str::to_string).collect();
        assert_eq!(lines(sample), expected, "{sample:?}");
    }
}

#[test]
fn entries_are_the_lines_with_something_on_them() {
    assert_eq!(entries(" a \n\n \t\r\n b"), ["a", "b"]);
    assert_eq!(entries("\n \n"), Vec::<String>::new());
}

#[test]
fn searching() {
    assert!(contains("corporation", "ati"));
    assert!(contains("abc", ""));
    assert!(contains("abc", "abc"));
    assert!(!contains("abc", "abcd"));
    assert!(!contains("", "a"));
    assert!(starts_with("render_0001.png", "render_"));
    assert!(!starts_with("ren", "render_"));
    assert!(ends_with("render_0001.png", ".png"));
    assert!(!ends_with("png", ".png"));
}

#[test]
fn numbers_in_decimal() {
    assert_eq!(to_decimal(0), "0");
    assert_eq!(to_decimal(10), "10");
    assert_eq!(to_decimal(u64::MAX), "18446744073709551615");
    assert_eq!(to_zero_padded(7, 4), "0007");
    assert_eq!(to_zero_padded(12345, 4), "12345");
    assert_eq!(to_zero_padded(0, 0), "0");
    assert_eq!(to_signed_decimal(-1), "-1");
    assert_eq!(to_signed_decimal(i32::MIN), "-2147483648");
    assert_eq!(to_signed_decimal(137), "137");
}

#[test]
fn the_end_of_a_text_is_kept_in_whole_characters() {
    assert_eq!(tail("hello", 10), "hello");
    assert_eq!(tail("hello", 5), "hello");
    assert_eq!(tail("hello", 2), "lo");
    assert_eq!(tail("hello", 0), "");
    assert_eq!(tail("", 0), "");
    // Each of these takes two bytes: a limit inside one drops it.
    assert_eq!(tail("äöü", 3), "ü");
    assert_eq!(tail("äöü", 4), "öü");
}
