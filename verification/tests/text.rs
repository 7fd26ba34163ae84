use task_tracker::text::{chars_of, trim};

#[test]
fn chars_of_gives_every_character_in_order() {
    assert_eq!(chars_of(""), Vec::<char>::new());
    assert_eq!(chars_of("a b"), vec!['a', ' ', 'b']);
    assert_eq!(chars_of("z\u{e9}\u{2713}"), vec!['z', '\u{e9}', '\u{2713}']);
}

#[test]
fn trim_removes_white_space_at_both_ends() {
    assert_eq!(trim("  Buy milk  "), "Buy milk");
    assert_eq!(trim("\t\r\nx\n"), "x");
    assert_eq!(trim("x"), "x");
    assert_eq!(trim(" x"), "x");
    assert_eq!(trim("x "), "x");
}

#[test]
fn trim_keeps_white_space_inside() {
    assert_eq!(trim(" a  b\tc "), "a  b\tc");
}

#[test]
fn trim_of_white_space_only_is_empty() {
    assert_eq!(trim(""), "");
    assert_eq!(trim(" "), "");
    assert_eq!(trim(" \t\r\n "), "");
}

#[test]
fn trim_knows_white_space_beyond_ascii() {
    assert_eq!(trim("\u{a0}\u{2003}caf\u{e9}\u{3000}"), "caf\u{e9}");
    assert_eq!(trim("\u{2028}\u{2029}"), "");
    assert_eq!(trim("\u{200b}x\u{200b}"), "\u{200b}x\u{200b}");
}

#[test]
fn trim_agrees_with_the_standard_library() {
    let samples = [
        "",
        " ",
        "x",
        "  x  ",
        "\n\n",
        "\tBuy milk\r\n",
        " a b ",
        "\u{a0}x\u{a0}",
        "\u{1680}\u{2000}\u{200a}mid dle\u{202f}\u{205f}",
        "\u{85}y\u{b}\u{c}",
        "\u{feff}x",
        "12\n",
    ];
    for sample in samples {
        assert_eq!(trim(sample), sample.trim());
    }
}
