use techlead::text::is_whitespace;
use techlead::text::join_with_spaces;
use techlead::text::repeat;
use techlead::text::same_text;
use techlead::text::starts_with;
use techlead::text::trim;

#[test]
fn whitespace_is_what_the_standard_library_calls_whitespace() {
    let mut code: u32 = 0;
    while code <= 0x10FFFF {
        if let Some(c) = char::from_u32(code) {
            assert_eq!(is_whitespace(c), c.is_whitespace(), "U+{:04X}", code);
        }
        code += 1;
    }
}

#[test]
fn trim_removes_surrounding_whitespace_only() {
    assert_eq!(trim("  hello world \t\r\n"), "hello world");
    assert_eq!(trim("hello"), "hello");
    assert_eq!(trim(" \u{3000}\u{a0}x\u{2003}y\u{85}"), "x\u{2003}y");
    assert_eq!(trim(""), "");
    assert_eq!(trim(" \n\t "), "");
}

#[test]
fn trim_agrees_with_the_standard_library() {
    let samples = [
        "",
        " ",
        "a",
        " a",
        "a ",
        "  a b  ",
        "\u{feff} x",
        "\u{200b}x\u{200b}",
        "\u{1680}\u{2028}é\u{2029}\u{202f}\u{205f}",
        "\u{180e}x",
        "explain main\n",
    ];
    for s in samples {
        assert_eq!(trim(s), s.trim(), "{:?}", s);
    }
}

#[test]
fn starts_with_compares_characters() {
    assert!(starts_with("// note", "//"));
    assert!(starts_with("abc", ""));
    assert!(starts_with("abc", "abc"));
    assert!(!starts_with("ab", "abc"));
    assert!(!starts_with("/ /", "//"));
    assert!(starts_with("éa", "é"));
}

#[test]
fn same_text_is_equality() {
    assert!(same_text("target", "target"));
    assert!(!same_text("target", "targets"));
    assert!(!same_text("Target", "target"));
    assert!(same_text("", ""));
}

#[test]
fn repeat_writes_the_unit_n_times() {
    assert_eq!(repeat("|____", 0), "");
    assert_eq!(repeat("|____", 1), "|____");
    assert_eq!(repeat("|____", 3), "|____|____|____");
}

#[test]
fn join_puts_one_space_between_words() {
    assert_eq!(join_with_spaces(&vec![]), "");
    assert_eq!(join_with_spaces(&vec!["explain".to_string()]), "explain");
    assert_eq!(
        join_with_spaces(&vec!["explain".to_string(), "main".to_string()]),
        "explain main"
    );
    assert_eq!(
        join_with_spaces(&vec!["a".to_string(), "".to_string(), "b ".to_string()]),
        "a  b "
    );
}

#[test]
fn characters_come_in_order() {
    assert_eq!(techlead::text::chars_of("añ🦀"), vec!['a', 'ñ', '🦀']);
    assert!(techlead::text::chars_of("").is_empty());
}
