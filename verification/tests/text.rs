use open_ai_responses::text::{is_white_space, number, terminate_line, trim, trim_end_matches};

#[test]
fn white_space_is_that_of_unicode() {
    for code in 0..=0x10ffff_u32 {
        if let Some(c) = char::from_u32(code) {
            assert_eq!(is_white_space(c), c.is_whitespace());
        }
    }
}

#[test]
fn trims_white_space_on_both_sides() {
    for text in ["", " ", "a", " a", "a ", "\u{2003} a b\u{85}\n", "\u{200b}a", "\u{e9} \u{e9} "] {
        assert_eq!(trim(text), text.trim());
    }
}

#[test]
fn removes_trailing_characters() {
    for text in ["", "/", "//", "a", "a/", "/a/b//", "\u{e9}/\u{2f}", "a/ "] {
        assert_eq!(trim_end_matches(text, '/'), text.trim_end_matches('/'));
    }
}

#[test]
fn terminates_lines_once() {
    assert_eq!(terminate_line("".to_string()), "");
    assert_eq!(terminate_line("\n".to_string()), "\n");
    assert_eq!(terminate_line("a".to_string()), "a\n");
    assert_eq!(terminate_line("a\n".to_string()), "a\n");
    assert_eq!(terminate_line("a\nb".to_string()), "a\nb\n");
    assert_eq!(terminate_line("a\r".to_string()), "a\r\n");
    assert_eq!(terminate_line(terminate_line("\u{e9}".to_string())), "\u{e9}\n");
}

#[test]
fn numbers_are_decimal() {
    for n in [0, 7, 10, 99, 100, 404, 1000, 65535] {
        assert_eq!(number(n), n.to_string());
    }
}
