use command_bridge::text::{char_is_space, decimal_text, trim};

#[test]
fn white_space_is_what_trimming_takes_away() {
    let mut code: u32 = 0;
    while code <= 0x10ffff {
        if let Some(c) = char::from_u32(code) {
            assert_eq!(char_is_space(c), c.is_whitespace(), "U+{:04X}", code);
        }
        code += 1;
    }
}

#[test]
fn some_characters_are_space_and_some_are_not() {
    assert!(char_is_space(' '));
    assert!(char_is_space('\t'));
    assert!(char_is_space('\n'));
    assert!(char_is_space('\u{b}'));
    assert!(char_is_space('\u{c}'));
    assert!(char_is_space('\r'));
    assert!(char_is_space('\u{2028}'));
    assert!(!char_is_space('a'));
    assert!(!char_is_space('\u{8}'));
    assert!(!char_is_space('\u{e}'));
    assert!(!char_is_space('\u{200b}'));
    assert!(!char_is_space('\u{feff}'));
}

#[test]
fn numbers_are_written_in_decimal() {
    assert_eq!(decimal_text(0), "0");
    assert_eq!(decimal_text(7), "7");
    assert_eq!(decimal_text(9), "9");
    assert_eq!(decimal_text(10), "10");
    assert_eq!(decimal_text(99), "99");
    assert_eq!(decimal_text(100), "100");
    assert_eq!(decimal_text(404), "404");
    assert_eq!(decimal_text(500), "500");
    assert_eq!(decimal_text(1234), "1234");
    assert_eq!(decimal_text(65535), "65535");
}

#[test]
fn every_number_is_written_as_the_standard_library_writes_it() {
    let mut n: u16 = 0;
    loop {
        assert_eq!(decimal_text(n), n.to_string());
        if n == u16::MAX {
            break;
        }
        n += 1;
    }
}

#[test]
fn trimming_takes_the_white_space_at_both_ends_away() {
    assert_eq!(trim(""), "");
    assert_eq!(trim("   "), "");
    assert_eq!(trim("a"), "a");
    assert_eq!(trim(" a"), "a");
    assert_eq!(trim("a "), "a");
    assert_eq!(trim("  a  b  "), "a  b");
    assert_eq!(trim("\t\r\n x \u{3000}"), "x");
    assert_eq!(trim("\u{a0}\u{e9}t\u{e9}\u{2003}"), "\u{e9}t\u{e9}");
    assert_eq!(trim("\u{200b} "), "\u{200b}");
}

#[test]
fn trimming_is_what_the_standard_library_does() {
    let pieces = ["", " ", "\t", "\n", "a", "\u{e9}", "\u{3000}", "\u{200b}", "b c", "\u{1f600}"];
    for a in pieces {
        for b in pieces {
            for c in pieces {
                let s = format!("{}{}{}", a, b, c);
                assert_eq!(trim(&s), s.trim(), "{:?}", s);
            }
        }
    }
}
