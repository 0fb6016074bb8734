use pelican_installer::utils::text::{
    char_is_control, char_is_whitespace, chars_of, digit_of, join, push_decimal,
    push_signed_decimal, string_of, trim_bounds,
};

fn decimal(n: u64) -> String {
    let mut s = String::new();
    push_decimal(&mut s, n);
    s
}

fn signed(n: i32) -> String {
    let mut s = String::new();
    push_signed_decimal(&mut s, n);
    s
}

#[test]
fn decimal_of_small_and_large_numbers() {
    assert_eq!(decimal(0), "0");
    assert_eq!(decimal(7), "7");
    assert_eq!(decimal(10), "10");
    assert_eq!(decimal(42), "42");
    assert_eq!(decimal(100), "100");
    assert_eq!(decimal(65535), "65535");
    assert_eq!(decimal(u64::MAX), "18446744073709551615");
}

#[test]
fn decimal_agrees_with_the_standard_library() {
    let mut n: u64 = 0;
    while n < 5000 {
        assert_eq!(decimal(n), n.to_string());
        n += 1;
    }
    let mut m: u64 = 1;
    while m < u64::MAX / 7 {
        assert_eq!(decimal(m), m.to_string());
        m = m * 7 + 3;
    }
}

#[test]
fn decimal_appends_to_what_is_there() {
    let mut s = "code ".to_string();
    push_decimal(&mut s, 3);
    assert_eq!(s, "code 3");
}

#[test]
fn signed_decimal() {
    assert_eq!(signed(0), "0");
    assert_eq!(signed(3), "3");
    assert_eq!(signed(-1), "-1");
    assert_eq!(signed(255), "255");
    assert_eq!(signed(i32::MAX), "2147483647");
    assert_eq!(signed(i32::MIN), "-2147483648");
}

#[test]
fn control_characters_are_those_of_the_standard_library() {
    let mut code: u32 = 0;
    while code <= 0x10ffff {
        if let Some(c) = char::from_u32(code) {
            assert_eq!(char_is_control(c), c.is_control(), "U+{:04X}", code);
        }
        code += 1;
    }
}

#[test]
fn white_space_is_that_of_the_standard_library() {
    let mut code: u32 = 0;
    while code <= 0x10ffff {
        if let Some(c) = char::from_u32(code) {
            assert_eq!(char_is_whitespace(c), c.is_whitespace(), "U+{:04X}", code);
        }
        code += 1;
    }
}

#[test]
fn digits() {
    assert_eq!(digit_of('0'), Some(0));
    assert_eq!(digit_of('5'), Some(5));
    assert_eq!(digit_of('9'), Some(9));
    assert_eq!(digit_of('/'), None);
    assert_eq!(digit_of(':'), None);
    assert_eq!(digit_of('a'), None);
    assert_eq!(digit_of('٣'), None);
}

#[test]
fn characters_round_trip() {
    for s in ["", "a", "panel.example.com", "héllo wörld", "日本語", "a\u{301}"] {
        let chars = chars_of(s);
        assert_eq!(chars, s.chars().collect::<Vec<char>>());
        assert_eq!(string_of(&chars), s);
    }
}

fn trimmed(s: &str) -> String {
    let chars = chars_of(s);
    let (a, b) = trim_bounds(&chars);
    if a < b {
        chars[a..b].iter().collect()
    } else {
        String::new()
    }
}

#[test]
fn trimming_agrees_with_the_standard_library() {
    for s in [
        "",
        " ",
        "   ",
        "a",
        " a",
        "a ",
        "  a b  ",
        "\t\n x \r\n",
        "\u{a0}x\u{3000}",
        "x\u{200b}",
        " \u{2003}é \u{85}",
    ] {
        assert_eq!(trimmed(s), s.trim(), "{:?}", s);
    }
}

#[test]
fn join_puts_line_breaks_between_lines() {
    assert_eq!(join(&vec![]), "");
    assert_eq!(join(&vec!["a".to_string()]), "a");
    assert_eq!(join(&vec!["a".to_string(), "b".to_string()]), "a\nb");
    assert_eq!(
        join(&vec!["a".to_string(), String::new(), "c".to_string()]),
        "a\n\nc"
    );
    assert_eq!(join(&vec![String::new()]), "");
    assert_eq!(join(&vec![String::new(), String::new()]), "\n");
}
