use domain_client::json::quote;

#[test]
fn quote_puts_plain_text_between_quotes() {
    assert_eq!(quote(""), "\"\"");
    assert_eq!(quote("example.com"), "\"example.com\"");
    assert_eq!(quote("a b/c'd"), "\"a b/c'd\"");
    assert_eq!(quote("\u{fc}\u{1f600}"), "\"\u{fc}\u{1f600}\"");
    assert_eq!(quote("\u{7f}\u{80}\u{2028}"), "\"\u{7f}\u{80}\u{2028}\"");
}

#[test]
fn quote_escapes_quote_and_backslash() {
    assert_eq!(quote("\""), "\"\\\"\"");
    assert_eq!(quote("\\"), "\"\\\\\"");
    assert_eq!(quote("a\"b\\c"), "\"a\\\"b\\\\c\"");
    assert_eq!(quote("\\\""), "\"\\\\\\\"\"");
    assert_eq!(quote("\\n"), "\"\\\\n\"");
}

#[test]
fn quote_escapes_control_characters() {
    assert_eq!(quote("\u{8}"), "\"\\b\"");
    assert_eq!(quote("\t"), "\"\\t\"");
    assert_eq!(quote("\n"), "\"\\n\"");
    assert_eq!(quote("\u{c}"), "\"\\f\"");
    assert_eq!(quote("\r"), "\"\\r\"");
    assert_eq!(quote("\u{0}"), "\"\\u0000\"");
    assert_eq!(quote("\u{1}"), "\"\\u0001\"");
    assert_eq!(quote("\u{b}"), "\"\\u000b\"");
    assert_eq!(quote("\u{f}"), "\"\\u000f\"");
    assert_eq!(quote("\u{10}"), "\"\\u0010\"");
    assert_eq!(quote("\u{1a}"), "\"\\u001a\"");
    assert_eq!(quote("\u{1f}"), "\"\\u001f\"");
    assert_eq!(quote("\u{20}"), "\" \"");
}

#[test]
fn quote_writes_every_character_as_the_json_codec_does() {
    for code in 0u32..0x3000 {
        let Some(c) = char::from_u32(code) else { continue };
        let text = format!("<{}>", c);
        assert_eq!(quote(&text), serde_json::to_string(&text).unwrap(), "U+{:04X}", code);
    }
    for code in [0xd7ffu32, 0xe000, 0xfffd, 0xffff, 0x10000, 0x1f600, 0x10ffff] {
        let text = char::from_u32(code).unwrap().to_string();
        assert_eq!(quote(&text), serde_json::to_string(&text).unwrap(), "U+{:04X}", code);
    }
}

#[test]
fn quoted_text_reads_back() {
    for code in 0u32..0x3000 {
        let Some(c) = char::from_u32(code) else { continue };
        let text = format!("{}x\"\\{}", c, c);
        let read: String = serde_json::from_str(&quote(&text)).unwrap();
        assert_eq!(read, text, "U+{:04X}", code);
    }
}

#[test]
fn quote_of_a_long_text() {
    let text = "ab\"\n".repeat(500);
    let json = quote(&text);
    assert_eq!(json.len(), 2 + 500 * 6);
    assert_eq!(serde_json::from_str::<String>(&json).unwrap(), text);
}
