use check_spin_cli_version::text::{
    chars_of, decimal_string, is_whitespace, same_text, strip_leading, trim,
};

#[test]
fn white_space_is_what_std_calls_white_space() {
    for code in 0u32..=0x10ffff {
        if let Some(c) = char::from_u32(code) {
            assert_eq!(is_whitespace(c), c.is_whitespace(), "U+{code:04X}");
        }
    }
}

#[test]
fn white_space_characters_by_name() {
    for c in ['\t', '\n', '\u{b}', '\u{c}', '\r', ' ', '\u{85}', '\u{a0}', '\u{1680}', '\u{2000}',
        '\u{2005}', '\u{200a}', '\u{2028}', '\u{2029}', '\u{202f}', '\u{205f}', '\u{3000}']
    {
        assert!(is_whitespace(c), "{c:?}");
    }
    for c in ['\u{8}', '\u{e}', 'v', '0', '\u{200b}', '\u{feff}', '\u{180e}', '\u{2060}', '_'] {
        assert!(!is_whitespace(c), "{c:?}");
    }
}

#[test]
fn trim_removes_surrounding_white_space_only() {
    assert_eq!(trim("  1.2.3  "), "1.2.3");
    assert_eq!(trim("1.2.3"), "1.2.3");
    assert_eq!(trim("\t\n 1 2 3 \r\n"), "1 2 3");
    assert_eq!(trim(""), "");
    assert_eq!(trim(" \u{a0}\u{3000} "), "");
    assert_eq!(trim(" x"), "x");
    assert_eq!(trim("x "), "x");
    assert_eq!(trim("\u{2003}é 日本\u{1680}"), "é 日本");
    assert_eq!(trim("\u{200b} x \u{200b}"), "\u{200b} x \u{200b}");
}

#[test]
fn trim_agrees_with_std() {
    let samples = ["", " ", "a", " a", "a ", " a ", "  a b  ", "\n\ta\u{85}", "\u{2028}é\u{2029}",
        "🚀 ", " 🚀", "\u{feff} x \u{feff}", "\r\n\r\n", "x\u{0}y "];
    for s in samples {
        assert_eq!(trim(s), s.trim(), "{s:?}");
    }
}

#[test]
fn strip_leading_removes_one_character_at_most() {
    assert_eq!(strip_leading("v1.2.3", 'v'), "1.2.3");
    assert_eq!(strip_leading("vv1", 'v'), "v1");
    assert_eq!(strip_leading("1.2.3", 'v'), "1.2.3");
    assert_eq!(strip_leading("", 'v'), "");
    assert_eq!(strip_leading("v", 'v'), "");
    assert_eq!(strip_leading(" v1", 'v'), " v1");
    assert_eq!(strip_leading("éa", 'é'), "a");
    assert_eq!(strip_leading("1v", 'v'), "1v");
}

#[test]
fn chars_of_lists_the_characters() {
    assert_eq!(chars_of(""), Vec::<char>::new());
    assert_eq!(chars_of("v1é🚀"), vec!['v', '1', 'é', '🚀']);
}

#[test]
fn same_text_compares_whole_strings() {
    assert!(same_text("canary", "canary"));
    assert!(same_text("", ""));
    assert!(!same_text("canary", "canar"));
    assert!(!same_text("canar", "canary"));
    assert!(!same_text("canary", "Canary"));
    assert!(!same_text("canary", "canarz"));
    assert!(!same_text("", " "));
}

#[test]
fn decimal_numerals() {
    assert_eq!(decimal_string(0), "0");
    assert_eq!(decimal_string(7), "7");
    assert_eq!(decimal_string(9), "9");
    assert_eq!(decimal_string(10), "10");
    assert_eq!(decimal_string(200), "200");
    assert_eq!(decimal_string(404), "404");
    assert_eq!(decimal_string(1000), "1000");
    assert_eq!(decimal_string(65535), "65535");
}

#[test]
fn decimal_agrees_with_std_on_every_number() {
    for n in 0..=u16::MAX {
        assert_eq!(decimal_string(n), n.to_string());
    }
}
