use paimon_iceberg::text::{escape, i64_text, parse_i64, trim, u64_text};

#[test]
fn numerals() {
    assert_eq!(i64_text(0), "0");
    assert_eq!(i64_text(-7), "-7");
    assert_eq!(i64_text(i64::MIN), "-9223372036854775808");
    assert_eq!(i64_text(i64::MAX), "9223372036854775807");
    assert_eq!(u64_text(u64::MAX), "18446744073709551615");
}

#[test]
fn integers_are_parsed_as_the_standard_library_does() {
    for text in [
        "0", "7", "-7", "+7", "007", "-0", "", "-", "+", "+-7", " 7", "7 ", "1_000", "7.0", "0x7",
        "9223372036854775807", "9223372036854775808", "-9223372036854775808",
        "-9223372036854775809", "99999999999999999999999", "\u{0661}",
    ] {
        assert_eq!(parse_i64(text), text.parse::<i64>().ok(), "{text:?}");
    }
}

#[test]
fn printed_integers_are_parsed() {
    for i in [0, 1, -1, 42, i64::MIN, i64::MAX] {
        assert_eq!(parse_i64(&i64_text(i)), Some(i));
        assert_eq!(trim(&i64_text(i)), i64_text(i));
    }
}

#[test]
fn white_space_is_trimmed_as_the_standard_library_does() {
    for text in [
        "", " ", "a", " a ", "\t\r\n12\n", "a b", "\u{a0}x\u{3000}", "\u{2028}", "\u{200b}x",
        "\u{85}y\u{1680}", " \u{feff} ",
    ] {
        assert_eq!(trim(text), text.trim(), "{text:?}");
    }
}

#[test]
fn texts_are_escaped_for_json() {
    assert_eq!(escape("plain _NAME \u{e9}/"), "plain _NAME \u{e9}/");
    assert_eq!(escape("a\"b"), "a\\\"b");
    for c in ('\u{0}'..='\u{a0}').chain(['\u{2028}', '\u{1f389}']) {
        let text = format!("x{c}y");
        let quoted = format!("\"{}\"", escape(&text));
        assert_eq!(quoted, serde_json::to_string(&text).unwrap());
        assert_eq!(serde_json::from_str::<String>(&quoted).unwrap(), text);
    }
}
