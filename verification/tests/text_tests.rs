use telescope_park_bridge::text::{
    chars_of, contains, decimal_text, digit_text, hex4_text, matches_at, same_chars, same_text,
    starts_with, text_contains, text_starts_with, trim_bounds, trim_text,
};

fn chars(s: &str) -> Vec<char> {
    s.chars().collect()
}

#[test]
fn the_characters_of_a_text_come_in_order() {
    assert_eq!(chars_of(""), Vec::<char>::new());
    assert_eq!(chars_of("a\u{e9}\u{1f52d}z"), vec!['a', '\u{e9}', '\u{1f52d}', 'z']);
}

#[test]
fn texts_are_compared_character_by_character() {
    assert!(same_text("", ""));
    assert!(same_text("ack", "ack"));
    assert!(!same_text("ack", "Ack"));
    assert!(!same_text("ack", "ac"));
    assert!(!same_text("ac", "ack"));
    assert!(same_chars(&chars("\u{e9}"), &chars("\u{e9}")));
    assert!(!same_chars(&chars("e"), &chars("\u{e9}")));
}

#[test]
fn a_needle_is_found_where_it_stands() {
    let s = chars("abcabc");
    assert!(matches_at(&s, &chars("abc"), 0));
    assert!(matches_at(&s, &chars("abc"), 3));
    assert!(!matches_at(&s, &chars("abc"), 1));
    assert!(!matches_at(&s, &chars("abc"), 4));
    assert!(!matches_at(&s, &chars("abc"), usize::MAX));
    assert!(matches_at(&s, &chars(""), 6));
    assert!(!matches_at(&s, &chars(""), 7));
}

#[test]
fn prefixes_and_occurrences() {
    assert!(starts_with(&chars("=====x"), &chars("=====")));
    assert!(!starts_with(&chars("===="), &chars("=====")));
    assert!(starts_with(&chars(""), &chars("")));
    assert!(text_starts_with("Device ready!", "Device ready"));
    assert!(!text_starts_with(" Device ready", "Device ready"));
    assert!(contains(&chars("a Debug b"), &chars("Debug")));
    assert!(contains(&chars("Debug"), &chars("Debug")));
    assert!(!contains(&chars("Debu"), &chars("Debug")));
    assert!(!contains(&chars("debug"), &chars("Debug")));
    assert!(contains(&chars(""), &chars("")));
    assert!(contains(&chars("x"), &chars("")));
    assert!(text_contains("xxDebug", "Debug"));
    assert!(!text_contains("", "Debug"));
}

#[test]
fn numbers_are_written_in_decimal() {
    assert_eq!(decimal_text(0), "0");
    assert_eq!(decimal_text(7), "7");
    assert_eq!(decimal_text(10), "10");
    assert_eq!(decimal_text(115_200), "115200");
    assert_eq!(decimal_text(u64::MAX), "18446744073709551615");
}

#[test]
fn identifiers_are_written_as_four_hex_digits() {
    assert_eq!(hex4_text(0), "0000");
    assert_eq!(hex4_text(0x2886), "2886");
    assert_eq!(hex4_text(0x521f), "521F");
    assert_eq!(hex4_text(0x00ab), "00AB");
    assert_eq!(hex4_text(u16::MAX), "FFFF");
    assert_eq!(digit_text(9), "9");
    assert_eq!(digit_text(10), "A");
    assert_eq!(digit_text(15), "F");
}

#[test]
fn trimming_takes_the_whitespace_off_both_ends() {
    assert_eq!(trim_text(""), "");
    assert_eq!(trim_text("  \t\r\n"), "");
    assert_eq!(trim_text("abc"), "abc");
    assert_eq!(trim_text("  a b \r\n"), "a b");
    assert_eq!(trim_text("\u{2003}\u{e9}t\u{e9}\u{a0}"), "\u{e9}t\u{e9}");
    assert_eq!(trim_bounds(&chars("  ab ")), (2, 4));
    assert_eq!(trim_bounds(&chars("   ")), (3, 3));
    assert_eq!(trim_bounds(&chars("")), (0, 0));
    for s in ["", " ", "x", " x", "x ", "\n x y \n", "\u{3000}x"] {
        assert_eq!(trim_text(s), s.trim());
    }
}
