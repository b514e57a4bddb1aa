use game_catalog::text::{is_whitespace, trim};

#[test]
fn whitespace_is_the_unicode_property() {
    let mut code: u32 = 0;
    while code <= 0x10FFFF {
        if let Some(c) = char::from_u32(code) {
            assert_eq!(is_whitespace(c), c.is_whitespace(), "U+{:04X}", code);
        }
        code += 1;
    }
}

#[test]
fn trim_takes_both_ends_and_keeps_the_middle() {
    assert_eq!(trim("  1990\n"), "1990");
    assert_eq!(trim("\n\t Super Mario  Bros. \r\n"), "Super Mario  Bros.");
    assert_eq!(trim("a"), "a");
    assert_eq!(trim(" a"), "a");
    assert_eq!(trim("a "), "a");
}

#[test]
fn trim_of_nothing_but_whitespace_is_empty() {
    assert_eq!(trim(""), "");
    assert_eq!(trim(" "), "");
    assert_eq!(trim(" \n\t\r\u{3000}"), "");
}

#[test]
fn trim_counts_characters_not_bytes() {
    assert_eq!(trim("\u{2003}Pok\u{e9}mon\u{a0}"), "Pok\u{e9}mon");
    assert_eq!(trim(" \u{30bc}\u{30eb}\u{30c0} "), "\u{30bc}\u{30eb}\u{30c0}");
}

#[test]
fn trim_agrees_with_the_standard_library() {
    let samples = [
        "",
        " ",
        "x",
        "  x  y  ",
        "\u{85}x\u{1680}",
        "\u{200b}x\u{200b}",
        "\u{feff} x",
        "\u{2028}\u{2029}x\u{202f}\u{205f}",
        "\u{1c}x\u{1f}",
    ];
    for sample in samples {
        assert_eq!(trim(sample), sample.trim(), "{:?}", sample);
    }
}

#[test]
fn trim_twice_is_trim_once() {
    let once = trim(" \n a b \t");
    assert_eq!(trim(&once), once);
}
