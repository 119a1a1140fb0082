use edit_proxy::text::same_text;
use edit_proxy::text::trim;
use edit_proxy::text::white_space;

#[test]
fn white_space_agrees_with_std_on_every_char() {
    let mut n: u32 = 0;
    while n <= 0x10FFFF {
        if let Some(c) = char::from_u32(n) {
            assert_eq!(white_space(c), c.is_whitespace(), "U+{:04X}", n);
        }
        n += 1;
    }
}

#[test]
fn white_space_holds_of_the_named_characters() {
    for c in [' ', '\t', '\n', '\u{0B}', '\u{0C}', '\r', '\u{85}', '\u{A0}', '\u{1680}'] {
        assert!(white_space(c));
    }
    for c in ['\u{2000}', '\u{200A}', '\u{2028}', '\u{2029}', '\u{202F}', '\u{205F}', '\u{3000}'] {
        assert!(white_space(c));
    }
    for c in ['a', '0', '\u{08}', '\u{0E}', '\u{1F}', '!', '\u{200B}', '\u{180E}', '\u{FEFF}'] {
        assert!(!white_space(c));
    }
}

#[test]
fn trim_removes_white_space_at_both_ends() {
    assert_eq!(trim("  Bonjour le monde  "), "Bonjour le monde");
    assert_eq!(trim("\n\tx y\r\n"), "x y");
    assert_eq!(trim("x"), "x");
    assert_eq!(trim(" x"), "x");
    assert_eq!(trim("x "), "x");
}

#[test]
fn trim_keeps_inner_white_space() {
    assert_eq!(trim(" a  b \t c "), "a  b \t c");
}

#[test]
fn trim_of_white_space_alone_is_empty() {
    assert_eq!(trim(""), "");
    assert_eq!(trim(" "), "");
    assert_eq!(trim(" \t\r\n\u{3000}"), "");
}

#[test]
fn trim_counts_characters_not_bytes() {
    assert_eq!(trim("\u{3000}\u{A0}héllo wörld ✓\u{2028}\u{85}"), "héllo wörld ✓");
    assert_eq!(trim(" 日本語 "), "日本語");
    assert_eq!(trim("\u{200B} x \u{200B}"), "\u{200B} x \u{200B}");
}

#[test]
fn trim_agrees_with_std() {
    let samples = [
        "",
        " ",
        "a",
        "  a",
        "a  ",
        " a b ",
        "\u{1680}\u{2003}mid\u{205F}dle\u{202F}",
        "\r\n line one\n line two \r\n",
        "\u{FEFF} bom",
        "émoji 😀 ",
    ];
    for s in samples {
        assert_eq!(trim(s), s.trim());
    }
}

#[test]
fn trim_is_idempotent_on_samples() {
    for s in ["  a b  ", "\t\t", "x", " \u{A0}y\u{A0} "] {
        assert_eq!(trim(trim(s)), trim(s));
    }
}

#[test]
fn same_text_compares_characters() {
    assert!(same_text("", ""));
    assert!(same_text("translate", "translate"));
    assert!(!same_text("translate", "Translate"));
    assert!(!same_text("translate", "translat"));
    assert!(!same_text("translate", "translate "));
    assert!(!same_text("summarize", "translate"));
    assert!(same_text("héllo", "héllo"));
    assert!(!same_text("héllo", "hello"));
}
