use tagged_pipeline::chars::{
    is_whitespace_char, parse_count_or_zero, parse_integer_or_zero, strip_padding, utf8_width,
};
use tagged_pipeline::text::{
    byte_length, i64_to_decimal, to_chars, u64_to_decimal, usize_to_decimal,
};

fn count(text: &str) -> usize {
    let chars: Vec<char> = text.chars().collect();
    parse_count_or_zero(&chars, 0, chars.len())
}

fn integer(text: &str) -> i64 {
    let chars: Vec<char> = text.chars().collect();
    parse_integer_or_zero(&chars, 0, chars.len())
}

#[test]
fn decimal_rendering_matches_the_standard_one() {
    for n in [0u64, 1, 9, 10, 11, 99, 100, 101, 12345, 1_700_000_000, u64::MAX] {
        assert_eq!(u64_to_decimal(n), n.to_string());
    }
    assert_eq!(usize_to_decimal(0), "0");
    assert_eq!(usize_to_decimal(2048), "2048");
    assert_eq!(usize_to_decimal(usize::MAX), usize::MAX.to_string());
}

#[test]
fn signed_rendering_matches_the_standard_one() {
    for v in [0i64, 1, -1, 9, -9, 10, -10, 100, -100, -33, i64::MAX, i64::MIN, i64::MIN + 1] {
        assert_eq!(i64_to_decimal(v), v.to_string());
    }
    assert_eq!(i64_to_decimal(-9223372036854775808), "-9223372036854775808");
}

#[test]
fn byte_length_counts_utf8_bytes() {
    assert_eq!(byte_length(""), 0);
    assert_eq!(byte_length("abc"), 3);
    assert_eq!(byte_length("é"), 2);
    assert_eq!(byte_length("€"), 3);
    assert_eq!(byte_length("😀"), 4);
    assert_eq!(byte_length("a€é😀"), 10);
}

#[test]
fn characters_come_out_in_order() {
    assert_eq!(to_chars(""), Vec::<char>::new());
    assert_eq!(to_chars("a€b"), vec!['a', '€', 'b']);
}

#[test]
fn utf8_width_matches_the_standard_one() {
    let mut code: u32 = 0;
    while code <= 0x10FFFF {
        if let Some(c) = char::from_u32(code) {
            assert_eq!(utf8_width(c), c.len_utf8());
        }
        code += 1;
    }
}

#[test]
fn white_space_matches_the_standard_one() {
    let mut code: u32 = 0;
    while code <= 0x10FFFF {
        if let Some(c) = char::from_u32(code) {
            assert_eq!(is_whitespace_char(c), c.is_whitespace(), "at {:x}", code);
        }
        code += 1;
    }
}

#[test]
fn counts_parse_as_the_standard_parser_does() {
    let samples = [
        "", "0", "5", "007", "+5", "+", "-", "-0", "-5", "++5", "5a", "a5", " 5", "5 ", "1_000",
        "18446744073709551615", "18446744073709551616", "18446744073709551617",
        "99999999999999999999999999", "00000000000000000000000000001", "٣", "５",
    ];
    for text in samples {
        assert_eq!(count(text), text.parse::<usize>().unwrap_or(0), "for {:?}", text);
    }
}

#[test]
fn integers_parse_as_the_standard_parser_does() {
    let samples = [
        "", "0", "5", "007", "+5", "+", "-", "-0", "-5", "--5", "+-5", "5a", "a5", " 5", "5 ",
        "9223372036854775807", "9223372036854775808", "-9223372036854775808",
        "-9223372036854775809", "+9223372036854775807", "99999999999999999999999999",
        "-99999999999999999999999999", "-00000000000000000000000000001",
    ];
    for text in samples {
        assert_eq!(integer(text), text.parse::<i64>().unwrap_or(0), "for {:?}", text);
    }
}

#[test]
fn malformed_numbers_count_as_zero() {
    for text in ["", "abc", "12x", "x12", "1 2", "+", "-", "1.5", "0x10", "١٢"] {
        assert_eq!(count(text), 0, "for {:?}", text);
        assert_eq!(integer(text), 0, "for {:?}", text);
    }
    assert_eq!(integer("-"), 0);
    assert_eq!(count("-1"), 0);
}

#[test]
fn numbers_in_range_are_kept() {
    assert_eq!(count("100"), 100);
    assert_eq!(count("50"), 50);
    assert_eq!(count("18446744073709551615"), usize::MAX);
    assert_eq!(integer("-9223372036854775808"), i64::MIN);
    assert_eq!(integer("9223372036854775807"), i64::MAX);
}

#[test]
fn a_number_is_read_within_its_bounds_only() {
    let chars: Vec<char> = "ab123cd".chars().collect();
    assert_eq!(parse_count_or_zero(&chars, 2, 5), 123);
    assert_eq!(parse_count_or_zero(&chars, 2, 6), 0);
    assert_eq!(parse_count_or_zero(&chars, 3, 3), 0);
    assert_eq!(parse_integer_or_zero(&chars, 3, 5), 23);
}

#[test]
fn padding_is_removed_at_both_ends() {
    assert_eq!(strip_padding("\0\0ls -la\0\0\0"), "ls -la");
    assert_eq!(strip_padding("a\0b"), "a\0b");
    assert_eq!(strip_padding("\0\0"), "");
    assert_eq!(strip_padding(""), "");
    assert_eq!(strip_padding(" x "), " x ");
    for text in ["\0a\0", "abc", "\0", "\0\0x\0y\0\0"] {
        assert_eq!(strip_padding(text), text.trim_matches(char::from(0)));
    }
}
