use frontend::text::{is_blank, is_white_space_char, to_decimal};

#[test]
fn decimal_of_single_digits() {
    let expected = ["0", "1", "2", "3", "4", "5", "6", "7", "8", "9"];
    for (n, numeral) in expected.iter().enumerate() {
        assert_eq!(to_decimal(n as u64), *numeral);
    }
}

#[test]
fn decimal_of_round_numbers_keeps_its_zeros() {
    assert_eq!(to_decimal(10), "10");
    assert_eq!(to_decimal(100), "100");
    assert_eq!(to_decimal(400), "400");
    assert_eq!(to_decimal(1000), "1000");
    assert_eq!(to_decimal(1_000_000), "1000000");
}

#[test]
fn decimal_of_common_statuses() {
    assert_eq!(to_decimal(200), "200");
    assert_eq!(to_decimal(404), "404");
    assert_eq!(to_decimal(503), "503");
}

#[test]
fn decimal_of_the_largest_values() {
    assert_eq!(to_decimal(65535), "65535");
    assert_eq!(to_decimal(u64::MAX), "18446744073709551615");
}

#[test]
fn decimal_agrees_with_the_standard_rendering() {
    let mut n: u64 = 0;
    while n < 70_000 {
        assert_eq!(to_decimal(n), n.to_string());
        n += 1;
    }
    let mut m: u64 = 1;
    for _ in 0..63 {
        m *= 2;
        assert_eq!(to_decimal(m), m.to_string());
        assert_eq!(to_decimal(m - 1), (m - 1).to_string());
    }
}

#[test]
fn the_empty_text_is_blank() {
    assert!(is_blank(""));
}

#[test]
fn spaces_alone_are_blank() {
    assert!(is_blank(" "));
    assert!(is_blank("   "));
}

#[test]
fn tabs_and_line_ends_are_blank() {
    assert!(is_blank("\t"));
    assert!(is_blank("\n"));
    assert!(is_blank("\r\n"));
    assert!(is_blank(" \t \n \u{0B} \u{0C} \r "));
}

#[test]
fn white_space_beyond_ascii_is_blank() {
    assert!(is_blank("\u{85}"));
    assert!(is_blank("\u{A0}"));
    assert!(is_blank("\u{1680}"));
    assert!(is_blank("\u{2000}\u{2005}\u{200A}"));
    assert!(is_blank("\u{2028}\u{2029}"));
    assert!(is_blank("\u{202F}\u{205F}\u{3000}"));
}

#[test]
fn text_with_a_visible_character_is_not_blank() {
    assert!(!is_blank("a"));
    assert!(!is_blank(" a"));
    assert!(!is_blank("a "));
    assert!(!is_blank("  battery  "));
    assert!(!is_blank("\t\n.\n\t"));
}

#[test]
fn look_alikes_of_white_space_are_not_blank() {
    assert!(!is_blank("\u{200B}"));
    assert!(!is_blank("\u{180E}"));
    assert!(!is_blank("\u{FEFF}"));
    assert!(!is_blank("\u{0}"));
    assert!(!is_blank("\u{1F}"));
    assert!(!is_blank("\u{8}"));
    assert!(!is_blank("\u{E}"));
    assert!(!is_blank("\u{200B} "));
}

#[test]
fn white_space_is_the_standard_property_for_every_character() {
    let mut white = 0;
    for code in 0u32..=0x10FFFF {
        if let Some(c) = char::from_u32(code) {
            assert_eq!(is_white_space_char(c), c.is_whitespace(), "U+{:04X}", code);
            if is_white_space_char(c) {
                white += 1;
            }
        }
    }
    assert_eq!(white, 25);
}

#[test]
fn blank_is_empty_after_trimming_for_every_character() {
    let mut text = String::new();
    for code in 0u32..=0x10FFFF {
        if let Some(c) = char::from_u32(code) {
            text.clear();
            text.push(' ');
            text.push(c);
            text.push('\n');
            assert_eq!(is_blank(&text), text.trim().is_empty(), "U+{:04X}", code);
        }
    }
}
