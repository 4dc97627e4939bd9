use tui_chan::strings::{
    chars_of, is_whitespace, lines_of, push_decimal, split_on_char, str_eq, string_of_range, trim,
};

fn decimal(n: u64) -> String {
    let mut text = String::new();
    push_decimal(&mut text, n);
    text
}

#[test]
fn decimal_numerals() {
    assert_eq!(decimal(0), "0");
    assert_eq!(decimal(7), "7");
    assert_eq!(decimal(10), "10");
    assert_eq!(decimal(570368), "570368");
    assert_eq!(decimal(u64::MAX), "18446744073709551615");
    for n in [9, 99, 100, 101, 12345678901234567, u64::MAX - 1] {
        assert_eq!(decimal(n), n.to_string());
    }
}

#[test]
fn push_decimal_appends() {
    let mut text = "No.".to_string();
    push_decimal(&mut text, 42);
    assert_eq!(text, "No.42");
}

#[test]
fn chars_and_back() {
    let text = "a\u{e4}\u{20ac}\u{1F4CC}";
    let chars = chars_of(text);
    assert_eq!(chars, vec!['a', '\u{e4}', '\u{20ac}', '\u{1F4CC}']);
    assert_eq!(string_of_range(&chars, 0, 4), text);
    assert_eq!(string_of_range(&chars, 1, 3), "\u{e4}\u{20ac}");
    assert_eq!(string_of_range(&chars, 2, 2), "");
    assert_eq!(chars_of(""), Vec::new());
}

#[test]
fn str_eq_compares_characters() {
    assert!(str_eq("abc", "abc"));
    assert!(str_eq("", ""));
    assert!(!str_eq("abc", "abd"));
    assert!(!str_eq("abc", "ab"));
}

#[test]
fn split_like_std() {
    for text in ["", " ", "a", "a b", " a", "a ", "a  b", "  ", "Ctrl Shift a", "\u{e4} \u{e4}"] {
        let expected: Vec<&str> = text.split(' ').collect();
        assert_eq!(split_on_char(text, ' '), expected);
    }
    assert_eq!(split_on_char("up=w=x", '='), vec!["up", "w", "x"]);
}

#[test]
fn whitespace_like_std() {
    for code in 0..0x11_0000u32 {
        if let Some(c) = char::from_u32(code) {
            assert_eq!(is_whitespace(c), c.is_whitespace());
        }
    }
}

#[test]
fn trim_like_std() {
    for text in
        ["", " ", "a", " a", "a ", "  a b  ", "\t\r\n a \u{a0}\u{3000}", " \u{2003} ", "a\u{200b} "]
    {
        assert_eq!(trim(text), text.trim());
    }
}

#[test]
fn lines_like_std() {
    for text in [
        "",
        "a",
        "a\n",
        "a\nb",
        "a\r\nb\r\n",
        "\n",
        "\n\n",
        "a\n\nb",
        "a\rb\n",
        "a\r",
        "\r\n",
        "a\r\r\n",
        "a\n\r",
        "\rb",
    ] {
        let expected: Vec<&str> = text.lines().collect();
        assert_eq!(lines_of(text), expected);
    }
}
