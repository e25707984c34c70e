use orion::trim::{is_whitespace, trim};

#[test]
fn trim_strips_both_ends() {
    assert_eq!(trim("  /tmp/root \n"), "/tmp/root");
    assert_eq!(trim("\t query\r\n"), "query");
    assert_eq!(trim("query\n"), "query");
    assert_eq!(trim("   leading"), "leading");
    assert_eq!(trim("trailing   "), "trailing");
}

#[test]
fn trim_keeps_inner_white_space() {
    assert_eq!(trim("  my  file name.txt \n"), "my  file name.txt");
    assert_eq!(trim("a\tb"), "a\tb");
}

#[test]
fn trim_of_clean_text_is_the_text() {
    assert_eq!(trim("test_file.txt"), "test_file.txt");
    assert_eq!(trim("a"), "a");
}

#[test]
fn trim_of_white_space_only_is_empty() {
    assert_eq!(trim(""), "");
    assert_eq!(trim("\n"), "");
    assert_eq!(trim(" \t\r\n "), "");
}

#[test]
fn trim_strips_white_space_beyond_ascii() {
    assert_eq!(trim("\u{a0}\u{3000}caf\u{e9}\u{2028}\u{85}"), "caf\u{e9}");
    assert_eq!(trim("\u{2003}\u{e9}t\u{e9} \u{1680}"), "\u{e9}t\u{e9}");
}

#[test]
fn trim_agrees_with_std() {
    let samples = [
        "",
        " ",
        "x",
        " x",
        "x ",
        " x ",
        "\n\nx y\n\n",
        "\u{b}\u{c}x\u{b}\u{c}",
        "\u{200b}x\u{200b}",
        "\u{feff}x",
        "\u{1f}x\u{1c}",
        "  \u{65e5}\u{672c}  \u{8a9e}  ",
    ];
    for sample in samples {
        assert_eq!(trim(sample), sample.trim());
    }
}

#[test]
fn is_whitespace_agrees_with_std_on_every_character() {
    let mut code: u32 = 0;
    while code <= 0x10ffff {
        if let Some(c) = char::from_u32(code) {
            assert_eq!(is_whitespace(c), c.is_whitespace());
        }
        code += 1;
    }
}

#[test]
fn is_whitespace_knows_the_common_cases() {
    assert!(is_whitespace(' '));
    assert!(is_whitespace('\t'));
    assert!(is_whitespace('\n'));
    assert!(is_whitespace('\r'));
    assert!(!is_whitespace('a'));
    assert!(!is_whitespace('_'));
    assert!(!is_whitespace('\0'));
}
