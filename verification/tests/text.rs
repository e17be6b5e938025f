use day_applet::text::{
    chars_of, clock_display_name, contains_text, decimal_string, is_space_char, padded_string,
    replace, signed_decimal_string, split_fields, split_first, split_last, split_words,
    to_farsi_digits,
};

#[test]
fn display_name_is_the_place() {
    assert_eq!(clock_display_name("America/New_York"), "New York");
    assert_eq!(clock_display_name("UTC"), "UTC");
    assert_eq!(clock_display_name("America/Argentina/Buenos_Aires"), "Buenos Aires");
    assert_eq!(clock_display_name("Europe/"), "");
    assert_eq!(clock_display_name(""), "");
}

#[test]
fn display_name_has_neither_slash_nor_underscore() {
    for name in ["A/B_C/D__E", "_/_", "/", "America/Port-au-Prince"] {
        let shown = clock_display_name(name);
        assert!(!shown.contains('/'));
        assert!(!shown.contains('_'));
    }
}

#[test]
fn farsi_digits_stand_for_decimal_ones() {
    assert_eq!(to_farsi_digits(0), "\u{06F0}");
    assert_eq!(to_farsi_digits(29), "\u{06F2}\u{06F9}");
    assert_eq!(to_farsi_digits(138), "\u{06F1}\u{06F3}\u{06F8}");
    assert_eq!(to_farsi_digits(245), "\u{06F2}\u{06F4}\u{06F5}");
    assert_eq!(to_farsi_digits(67), "\u{06F6}\u{06F7}");
}

#[test]
fn decimals_and_padding() {
    assert_eq!(decimal_string(0), "0");
    assert_eq!(decimal_string(1_234_567_890), "1234567890");
    assert_eq!(padded_string(7), "07");
    assert_eq!(padded_string(42), "42");
    assert_eq!(padded_string(100), "100");
    assert_eq!(signed_decimal_string(31), "31");
    assert_eq!(signed_decimal_string(-128), "-128");
    assert_eq!(signed_decimal_string(0), "0");
}

#[test]
fn parts_of_texts() {
    assert_eq!(split_first("en_US.UTF-8", '.'), "en_US");
    assert_eq!(split_first("POSIX", '.'), "POSIX");
    assert_eq!(split_first(".x", '.'), "");
    assert_eq!(split_last("a/b/c", '/'), "c");
    assert_eq!(replace("en_US_x", '_', '-'), "en-US-x");
    assert_eq!(chars_of("a\u{06F0}"), vec!['a', '\u{06F0}']);
}

#[test]
fn words_are_split_at_white_space() {
    assert_eq!(split_words("Feb 29"), vec!["Feb", "29"]);
    assert_eq!(split_words("  1:05\u{202F}PM\u{00A0}\t"), vec!["1:05", "PM"]);
    assert!(split_words(" \n").is_empty());
    assert!(split_words("").is_empty());
}

#[test]
fn fields_are_split_at_each_separator() {
    assert_eq!(split_fields("13:05:09", ':'), vec!["13", "05", "09"]);
    assert_eq!(split_fields(":a:", ':'), vec!["", "a", ""]);
    assert_eq!(split_fields("", ':'), vec![""]);
}

#[test]
fn fields_put_together_are_the_text() {
    for text in ["13:05:09", "::", "", "a", ":x::y"] {
        assert_eq!(split_fields(text, ':').join(":"), text);
    }
}

#[test]
fn white_space_is_that_of_unicode() {
    for code in 0..0x11_0000u32 {
        if let Some(c) = char::from_u32(code) {
            assert_eq!(is_space_char(c), c.is_whitespace());
        }
    }
}

#[test]
fn texts_are_found_in_lists() {
    let names = vec!["UTC".to_string(), "Asia/Tokyo".to_string()];
    assert!(contains_text(&names, &"Asia/Tokyo".to_string()));
    assert!(!contains_text(&names, &"Asia".to_string()));
    assert!(!contains_text(&Vec::new(), &"UTC".to_string()));
}
