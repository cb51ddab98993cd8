use dayjs::number::{parse_i32, parse_i8, parse_integer};
use dayjs::space::{is_whitespace, trim_end_text, trim_text};

#[test]
fn white_space_is_what_unicode_says() {
    let mut code = 0u32;
    while code <= 0x10FFFF {
        if let Some(c) = char::from_u32(code) {
            assert_eq!(is_whitespace(c), c.is_whitespace(), "character {:x}", code);
        }
        code += 1;
    }
}

#[test]
fn trimming_takes_the_space_at_the_ends() {
    let texts = [
        "",
        " ",
        "a",
        " a",
        "a ",
        "  a b  ",
        "\t\n +08:00 \r\n",
        "\u{3000}x\u{2003}",
        "x\u{200B}",
        " \u{85}\u{A0} ",
        "é ",
        "  2023-05-15T10:30:45Z ",
    ];
    for text in texts {
        assert_eq!(trim_text(text), text.trim());
        assert_eq!(trim_end_text(text), text.trim_end());
    }
}

#[test]
fn numbers_read_as_std_reads_them() {
    let texts = [
        "", "+", "-", "0", "-0", "+0", "7", "+7", "-7", "007", "127", "128", "-128", "-129", "255",
        "2147483647", "2147483648", "-2147483648", "-2147483649", "4000000000", "-4000000000",
        "99999999999999999999999999", "-99999999999999999999999999", "1 ", " 1", "1a", "a1",
        "++1", "--1", "+-1", "1+", "1.0", "0x10", "１２", "12e3", "000000000000000000012",
    ];
    for text in texts {
        assert_eq!(parse_i8(text), text.parse::<i8>().ok(), "text {:?}", text);
        assert_eq!(parse_i32(text), text.parse::<i32>().ok(), "text {:?}", text);
    }
    assert_eq!(parse_integer("3999999999", -1, 3_999_999_999), Some(3_999_999_999));
    assert_eq!(parse_integer("-3999999999", -3_999_999_999, 0), Some(-3_999_999_999));
    assert_eq!(parse_integer("4000000000", -1, 3_999_999_999), None);
    assert_eq!(parse_integer("5", -1, 4), None);
    assert_eq!(parse_integer("-2", -1, 4), None);
}
