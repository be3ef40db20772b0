use backend::header::{chars_of, is_whitespace, second_field_of};

#[test]
fn bearer_header_yields_its_token() {
    assert_eq!(second_field_of("Bearer abc123"), Some("abc123".to_string()));
}

#[test]
fn scheme_alone_has_no_token() {
    assert_eq!(second_field_of("Bearer"), None);
    assert_eq!(second_field_of("Bearer "), None);
    assert_eq!(second_field_of("  Bearer\t\n"), None);
}

#[test]
fn empty_and_blank_headers_have_no_token() {
    assert_eq!(second_field_of(""), None);
    assert_eq!(second_field_of(" \t\r\n"), None);
}

#[test]
fn scheme_is_not_validated() {
    assert_eq!(second_field_of("Basic dXNlcjpwYXNz"), Some("dXNlcjpwYXNz".to_string()));
    assert_eq!(second_field_of("x y"), Some("y".to_string()));
}

#[test]
fn surrounding_and_repeated_white_space_is_skipped() {
    assert_eq!(second_field_of("  Bearer \t  abc123  "), Some("abc123".to_string()));
    assert_eq!(second_field_of("Bearer\u{a0}abc123"), Some("abc123".to_string()));
    assert_eq!(second_field_of("Bearer\u{3000}abc123\u{2028}"), Some("abc123".to_string()));
}

#[test]
fn fields_after_the_second_are_ignored() {
    assert_eq!(second_field_of("Bearer abc123 trailing words"), Some("abc123".to_string()));
}

#[test]
fn token_may_hold_any_other_character() {
    assert_eq!(second_field_of("Bearer é漢字🙂.-_~"), Some("é漢字🙂.-_~".to_string()));
    assert_eq!(second_field_of("é漢 字🙂 x"), Some("字🙂".to_string()));
}

#[test]
fn agrees_with_split_whitespace() {
    for text in [
        "Bearer abc123",
        "Bearer",
        "",
        " a  b  c ",
        "\u{1680}a\u{2000}b\u{200a}c",
        "a\u{200b}b c",
        "a\u{180e}b c d",
        "\u{85}x\u{205f}y\u{202f}",
        "tab\tseparated\tfields",
    ] {
        let expected = text.split_whitespace().nth(1).map(|field| field.to_string());
        assert_eq!(second_field_of(text), expected, "{:?}", text);
    }
}

#[test]
fn white_space_is_what_the_standard_library_calls_so() {
    for code in 0..=0x10FFFFu32 {
        if let Some(c) = char::from_u32(code) {
            assert_eq!(is_whitespace(c), c.is_whitespace(), "U+{:04X}", code);
        }
    }
}

#[test]
fn chars_of_lists_the_characters() {
    assert_eq!(chars_of(""), Vec::<char>::new());
    assert_eq!(chars_of("aé🙂"), vec!['a', 'é', '🙂']);
}
