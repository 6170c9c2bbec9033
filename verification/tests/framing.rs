use relay_hub::framing::{trim, white_space};

#[test]
fn white_space_agrees_with_std_on_every_char() {
    let mut code: u32 = 0;
    while code <= 0x10FFFF {
        if let Some(c) = char::from_u32(code) {
            assert_eq!(white_space(c), c.is_whitespace(), "U+{:04X}", code);
        }
        code += 1;
    }
}

#[test]
fn white_space_holds_the_listed_code_points() {
    for c in ['\t', '\n', '\u{0B}', '\u{0C}', '\r', ' ', '\u{85}', '\u{A0}', '\u{1680}'] {
        assert!(white_space(c));
    }
    for c in ['\u{2000}', '\u{200A}', '\u{2028}', '\u{2029}', '\u{202F}', '\u{205F}', '\u{3000}'] {
        assert!(white_space(c));
    }
    for c in ['a', '0', '{', '\u{08}', '\u{0E}', '\u{180E}', '\u{200B}', '\u{FEFF}'] {
        assert!(!white_space(c));
    }
}

#[test]
fn trim_drops_white_space_at_both_ends() {
    assert_eq!(trim("  {\"a\":1}\r\n"), "{\"a\":1}");
    assert_eq!(trim("abc"), "abc");
    assert_eq!(trim("\tabc"), "abc");
    assert_eq!(trim("abc \u{3000}"), "abc");
    assert_eq!(trim("\u{A0}x\u{2003}y\u{85}"), "x\u{2003}y");
}

#[test]
fn trim_keeps_inner_white_space() {
    assert_eq!(trim(" a b  c "), "a b  c");
    assert_eq!(trim("\n{ \"k\" : \"v w\" }\n"), "{ \"k\" : \"v w\" }");
}

#[test]
fn trim_of_blank_lines_is_empty() {
    assert_eq!(trim(""), "");
    assert_eq!(trim("\n"), "");
    assert_eq!(trim(" \t\r\n"), "");
    assert_eq!(trim("\u{2028}\u{2029}"), "");
}

#[test]
fn trim_handles_multibyte_text() {
    assert_eq!(trim(" \u{00E9}t\u{00E9} "), "\u{00E9}t\u{00E9}");
    assert_eq!(trim("\u{1F600}"), "\u{1F600}");
    assert_eq!(trim("\u{200B} x"), "\u{200B} x");
}

#[test]
fn trim_agrees_with_std() {
    let samples = [
        "",
        " ",
        "x",
        " x",
        "x ",
        "  x  y  ",
        "\r\n",
        "\u{1680}a\u{1680}",
        "a\u{180E}",
        "\u{FEFF}a",
        "{\"timestamp\":\"2024-01-01T00:00:00Z\"}\n",
    ];
    for s in samples {
        assert_eq!(trim(s), s.trim());
    }
}
