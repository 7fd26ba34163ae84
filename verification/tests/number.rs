use task_tracker::number::{parse_i32, parse_unsigned, to_decimal};

#[test]
fn parse_unsigned_reads_plain_numerals() {
    assert_eq!(parse_unsigned("0", 10), Some(0));
    assert_eq!(parse_unsigned("7", 10), Some(7));
    assert_eq!(parse_unsigned("10", 10), Some(10));
    assert_eq!(parse_unsigned("42", u64::MAX), Some(42));
    assert_eq!(parse_unsigned("18446744073709551615", u64::MAX), Some(u64::MAX));
}

#[test]
fn parse_unsigned_accepts_a_plus_sign_and_leading_zeros() {
    assert_eq!(parse_unsigned("+5", 10), Some(5));
    assert_eq!(parse_unsigned("005", 10), Some(5));
    assert_eq!(parse_unsigned("+005", 10), Some(5));
    assert_eq!(parse_unsigned("000000000000000000000000000003", 5), Some(3));
}

#[test]
fn parse_unsigned_turns_down_what_is_no_numeral() {
    for text in ["", "+", "-", "-1", "-0", "++1", "+-1", "1+", " 1", "1 ", "1_0", "1.0", "0x1", "one", "1a", "a1", "\u{661}"] {
        assert_eq!(parse_unsigned(text, u64::MAX), None, "{:?}", text);
    }
}

#[test]
fn parse_unsigned_turns_down_numbers_over_the_limit() {
    assert_eq!(parse_unsigned("11", 10), None);
    assert_eq!(parse_unsigned("6", 5), None);
    assert_eq!(parse_unsigned("1", 0), None);
    assert_eq!(parse_unsigned("0", 0), Some(0));
    assert_eq!(parse_unsigned("256", 255), None);
    assert_eq!(parse_unsigned("18446744073709551616", u64::MAX), None);
    assert_eq!(parse_unsigned("99999999999999999999999999", u64::MAX), None);
    assert_eq!(parse_unsigned("99999999999999999999999999x", u64::MAX), None);
}

#[test]
fn parse_unsigned_agrees_with_the_standard_library() {
    let samples = [
        "", "0", "1", "5", "6", "9", "10", "255", "256", "+0", "+255", "+256", "-1", "00255",
        "2 5", "25 ", "abc", "+", "-", "65535", "65536", "4294967295", "4294967296",
        "18446744073709551615", "18446744073709551616", "340282366920938463463374607431768211456",
    ];
    for sample in samples {
        assert_eq!(
            parse_unsigned(sample, 255).map(|n| n as u8),
            sample.parse::<u8>().ok(),
            "{:?}",
            sample
        );
        assert_eq!(parse_unsigned(sample, u64::MAX), sample.parse::<u64>().ok(), "{:?}", sample);
        assert_eq!(
            parse_unsigned(sample, usize::MAX as u64).map(|n| n as usize),
            sample.parse::<usize>().ok(),
            "{:?}",
            sample
        );
    }
}

#[test]
fn parse_i32_reads_numerals_with_and_without_sign() {
    assert_eq!(parse_i32("0"), Some(0));
    assert_eq!(parse_i32("8"), Some(8));
    assert_eq!(parse_i32("+8"), Some(8));
    assert_eq!(parse_i32("-8"), Some(-8));
    assert_eq!(parse_i32("-0"), Some(0));
    assert_eq!(parse_i32("0012"), Some(12));
    assert_eq!(parse_i32("-0012"), Some(-12));
}

#[test]
fn parse_i32_keeps_to_32_bits() {
    assert_eq!(parse_i32("2147483647"), Some(i32::MAX));
    assert_eq!(parse_i32("2147483648"), None);
    assert_eq!(parse_i32("+2147483647"), Some(i32::MAX));
    assert_eq!(parse_i32("+2147483648"), None);
    assert_eq!(parse_i32("-2147483648"), Some(i32::MIN));
    assert_eq!(parse_i32("-2147483649"), None);
    assert_eq!(parse_i32("99999999999999999999"), None);
    assert_eq!(parse_i32("-99999999999999999999"), None);
}

#[test]
fn parse_i32_turns_down_what_is_no_numeral() {
    for text in ["", "+", "-", "--1", "-+1", "+-1", "1-", " 1", "1 ", "1.5", "one", "-a", "\u{2212}1"] {
        assert_eq!(parse_i32(text), None, "{:?}", text);
    }
}

#[test]
fn parse_i32_agrees_with_the_standard_library() {
    let samples = [
        "", "0", "-0", "+0", "1", "8", "9", "-1", "+1", "007", "-007", "2147483647", "2147483648",
        "-2147483648", "-2147483649", "4294967296", "x", "1x", "+", "-", " 3", "3\n", "3.0",
        "340282366920938463463374607431768211456",
    ];
    for sample in samples {
        assert_eq!(parse_i32(sample), sample.parse::<i32>().ok(), "{:?}", sample);
    }
}

#[test]
fn to_decimal_writes_without_leading_zeros() {
    assert_eq!(to_decimal(0), "0");
    assert_eq!(to_decimal(5), "5");
    assert_eq!(to_decimal(9), "9");
    assert_eq!(to_decimal(10), "10");
    assert_eq!(to_decimal(42), "42");
    assert_eq!(to_decimal(100), "100");
    assert_eq!(to_decimal(1234567890), "1234567890");
    assert_eq!(to_decimal(u64::MAX), "18446744073709551615");
}

#[test]
fn to_decimal_is_read_back_as_the_same_number() {
    for n in [0u64, 1, 9, 10, 11, 99, 100, 101, 255, 256, 65535, 4294967296, u64::MAX] {
        let text = to_decimal(n);
        assert_eq!(text, n.to_string());
        assert_eq!(parse_unsigned(&text, u64::MAX), Some(n));
    }
}
