use ddns_notify::text::{char_is_whitespace, trim};

#[test]
fn whitespace_is_the_unicode_property() {
    let mut code: u32 = 0;
    while code <= 0x10FFFF {
        if let Some(c) = char::from_u32(code) {
            assert_eq!(char_is_whitespace(c), c.is_whitespace(), "U+{:04X}", code);
        }
        code += 1;
    }
}

#[test]
fn whitespace_examples() {
    assert!(char_is_whitespace(' '));
    assert!(char_is_whitespace('\n'));
    assert!(char_is_whitespace('\r'));
    assert!(char_is_whitespace('\t'));
    assert!(char_is_whitespace('\u{3000}'));
    assert!(!char_is_whitespace('1'));
    assert!(!char_is_whitespace('.'));
    assert!(!char_is_whitespace('\u{200B}'));
}

#[test]
fn trim_removes_whitespace_at_both_ends() {
    assert_eq!(trim("  203.0.113.5\r\n"), "203.0.113.5");
    assert_eq!(trim("\t\u{A0}a b \u{2003}"), "a b");
}

#[test]
fn trim_keeps_inner_whitespace() {
    assert_eq!(trim(" 1.2.3.4\n5.6.7.8 "), "1.2.3.4\n5.6.7.8");
}

#[test]
fn trim_of_nothing_but_whitespace_is_empty() {
    assert_eq!(trim(""), "");
    assert_eq!(trim(" \r\n\t "), "");
}

#[test]
fn trim_leaves_a_trimmed_text_alone() {
    assert_eq!(trim("198.51.100.7"), "198.51.100.7");
    assert_eq!(trim("2001:db8::1"), "2001:db8::1");
}

#[test]
fn trim_agrees_with_std() {
    let samples = [
        "",
        " ",
        "a",
        " a",
        "a ",
        "\u{85}x\u{1680}",
        "\u{2028}\u{2029}y z\u{202F}\u{205F}",
        "\u{FEFF}bom ",
        "\nline\n\n",
    ];
    for sample in samples {
        assert_eq!(trim(sample), sample.trim());
    }
}
