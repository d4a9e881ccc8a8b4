use auto_commit::text::{is_whitespace, trim};

#[test]
fn whitespace_agrees_with_the_standard_library_on_every_character() {
    let mut code: u32 = 0;
    while code <= 0x10FFFF {
        if let Some(c) = char::from_u32(code) {
            assert_eq!(is_whitespace(c), c.is_whitespace(), "U+{:04X}", code);
        }
        code += 1;
    }
}

#[test]
fn trim_agrees_with_the_standard_library() {
    let samples = [
        "",
        " ",
        "\n\t ",
        "feat: add x",
        "  feat: add x",
        "feat: add x \r\n",
        "\u{3000}feat\u{a0}: add\u{2003}",
        " \"quoted\" ",
        "a",
        " a ",
    ];
    for s in samples {
        assert_eq!(trim(s), s.trim());
    }
}
