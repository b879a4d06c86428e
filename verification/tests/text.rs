use zero2prod::text::{
    char_is_forbidden, char_is_whitespace, find_last_at, text_has_forbidden, text_is_blank,
};

#[test]
fn whitespace_is_what_the_standard_library_calls_whitespace() {
    for code in 0..=0x10FFFFu32 {
        if let Some(c) = char::from_u32(code) {
            assert_eq!(char_is_whitespace(c), c.is_whitespace(), "U+{:04X}", code);
        }
    }
}

#[test]
fn blank_texts_are_those_that_trim_to_nothing() {
    for text in ["", " ", "\t\n", " a ", "a", "\u{2028}", "\u{200b}", "\u{feff}"] {
        assert_eq!(text_is_blank(text), text.trim().is_empty(), "{:?}", text);
    }
}

#[test]
fn the_forbidden_characters_are_nine() {
    let forbidden = ['/', '(', ')', '"', '<', '>', '\\', '{', '}'];
    let mut count = 0;
    for code in 0..=0x10FFFFu32 {
        if let Some(c) = char::from_u32(code) {
            assert_eq!(char_is_forbidden(c), forbidden.contains(&c));
            if char_is_forbidden(c) {
                count += 1;
            }
        }
    }
    assert_eq!(count, 9);
}

#[test]
fn a_forbidden_character_is_found_wherever_it_stands() {
    assert!(text_has_forbidden("/abc"));
    assert!(text_has_forbidden("ab{c"));
    assert!(text_has_forbidden("abc>"));
    assert!(!text_has_forbidden("abc"));
    assert!(!text_has_forbidden(""));
    assert!(!text_has_forbidden("[a|b]"));
}

#[test]
fn the_last_at_is_found_by_its_position_in_characters() {
    assert_eq!(find_last_at(""), None);
    assert_eq!(find_last_at("abc"), None);
    assert_eq!(find_last_at("@"), Some(0));
    assert_eq!(find_last_at("a@b"), Some(1));
    assert_eq!(find_last_at("a@b@c"), Some(3));
    assert_eq!(find_last_at("ë@b"), Some(1));
    assert_eq!(find_last_at("abc@"), Some(3));
}
