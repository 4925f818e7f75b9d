use chat_hub::text::{byte_len, chars_of, is_blank, normalize, str_eq};

fn has_white_space_property(c: char) -> bool {
    let code = c as u32;
    (0x0009..=0x000D).contains(&code)
        || code == 0x0020
        || code == 0x0085
        || code == 0x00A0
        || code == 0x1680
        || (0x2000..=0x200A).contains(&code)
        || code == 0x2028
        || code == 0x2029
        || code == 0x202F
        || code == 0x205F
        || code == 0x3000
}

#[test]
fn white_space_is_the_same_for_every_character() {
    let mut white = 0;
    for code in 0..=0x10FFFFu32 {
        if let Some(c) = char::from_u32(code) {
            let mut text = String::new();
            text.push(c);
            assert_eq!(is_blank(&text), has_white_space_property(c), "U+{:04X}", code);
            if has_white_space_property(c) {
                white += 1;
            }
        }
    }
    assert_eq!(white, 25);
}

#[test]
fn blank_texts() {
    assert!(is_blank(""));
    assert!(is_blank("   "));
    assert!(is_blank(" \t\r\n"));
    assert!(is_blank("\u{2003}\u{3000}"));
    assert!(!is_blank(" a "));
    assert!(!is_blank("\u{200b}"));
    assert!(!is_blank("  \u{feff}"));
}

#[test]
fn equal_texts_are_the_same_characters() {
    assert!(str_eq("", ""));
    assert!(str_eq("admin", "admin"));
    assert!(str_eq("caf\u{e9} \u{1f600}", "caf\u{e9} \u{1f600}"));
    assert!(!str_eq("admin", "admim"));
    assert!(!str_eq("admin", "Admin"));
    assert!(!str_eq("admin", "admin "));
    assert!(!str_eq("", " "));
    assert!(!str_eq("ab", "ba"));
    assert!(!str_eq("cafe\u{301}", "caf\u{e9}"));
    assert!(!str_eq("\u{e9}", "\u{e8}"));
}

#[test]
fn bytes_and_characters() {
    assert_eq!(byte_len(""), 0);
    assert_eq!(byte_len("abc"), 3);
    assert_eq!(byte_len("\u{e9}\u{1f600}"), 6);
    assert_eq!(chars_of("a\u{e9}\u{1f600}"), vec!['a', '\u{e9}', '\u{1f600}']);
    assert!(chars_of("").is_empty());
}

#[test]
fn names_are_trimmed_and_lowered() {
    assert_eq!(normalize("  Beta "), "beta");
    assert_eq!(normalize("\u{c9}COLE\n"), "\u{e9}cole");
    assert_eq!(normalize(" a B "), "a b");
    assert_eq!(normalize(""), "");
}
