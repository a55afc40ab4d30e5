use voice_bot::text::{
    join_texts, parse_u64, render_decimal, render_padded, render_signed, same_text,
};

#[test]
fn decimal_of_small_and_large_numbers() {
    assert_eq!(render_decimal(0), "0");
    assert_eq!(render_decimal(7), "7");
    assert_eq!(render_decimal(10), "10");
    assert_eq!(render_decimal(42), "42");
    assert_eq!(render_decimal(1000), "1000");
    assert_eq!(render_decimal(18446744073709551615), "18446744073709551615");
    assert_eq!(render_decimal(36893488147419103230), "36893488147419103230");
}

#[test]
fn decimal_agrees_with_the_standard_formatter() {
    let samples: Vec<u128> = vec![0, 1, 9, 10, 11, 99, 100, 101, 4294967295, 4294967296, u64::MAX as u128, u128::MAX];
    for n in samples {
        assert_eq!(render_decimal(n), format!("{}", n));
    }
}

#[test]
fn padding_fills_with_zeros_on_the_left() {
    assert_eq!(render_padded(7, 5), "00007");
    assert_eq!(render_padded(0, 4), "0000");
    assert_eq!(render_padded(1234, 4), "1234");
    assert_eq!(render_padded(65535, 5), "65535");
}

#[test]
fn padding_leaves_long_numerals_alone() {
    assert_eq!(render_padded(123456, 4), "123456");
    assert_eq!(render_padded(0, 0), "0");
    assert_eq!(render_padded(5, 1), "5");
}

#[test]
fn padding_agrees_with_the_standard_formatter() {
    let samples: Vec<u128> = vec![0, 3, 42, 999, 1000, 9999, 10000, 65535, 131070];
    for n in samples {
        assert_eq!(render_padded(n, 5), format!("{:05}", n));
        assert_eq!(render_padded(n, 4), format!("{:04}", n));
    }
}

#[test]
fn signed_numbers_carry_a_minus() {
    assert_eq!(render_signed(0), "0");
    assert_eq!(render_signed(5), "5");
    assert_eq!(render_signed(-1), "-1");
    assert_eq!(render_signed(-32768), "-32768");
    assert_eq!(render_signed(32767), "32767");
    assert_eq!(render_signed(i64::MAX), "9223372036854775807");
    assert_eq!(render_signed(i64::MIN), "-9223372036854775808");
}

#[test]
fn parse_reads_plain_numbers() {
    assert_eq!(parse_u64("0"), Some(0));
    assert_eq!(parse_u64("42"), Some(42));
    assert_eq!(parse_u64("00042"), Some(42));
    assert_eq!(parse_u64("701137077168898170"), Some(701137077168898170));
}

#[test]
fn parse_takes_one_leading_plus() {
    assert_eq!(parse_u64("+42"), Some(42));
    assert_eq!(parse_u64("+0"), Some(0));
    assert_eq!(parse_u64("++42"), None);
    assert_eq!(parse_u64("+"), None);
}

#[test]
fn parse_refuses_what_is_no_number() {
    assert_eq!(parse_u64(""), None);
    assert_eq!(parse_u64("-1"), None);
    assert_eq!(parse_u64(" 42"), None);
    assert_eq!(parse_u64("42 "), None);
    assert_eq!(parse_u64("4a2"), None);
    assert_eq!(parse_u64("4.2"), None);
    assert_eq!(parse_u64("abc"), None);
    assert_eq!(parse_u64("٤٢"), None);
}

#[test]
fn parse_stops_at_the_limit_of_64_bits() {
    assert_eq!(parse_u64("18446744073709551615"), Some(u64::MAX));
    assert_eq!(parse_u64("18446744073709551616"), None);
    assert_eq!(parse_u64("18446744073709551620"), None);
    assert_eq!(parse_u64("99999999999999999999"), None);
    assert_eq!(parse_u64("184467440737095516150"), None);
    assert_eq!(parse_u64("000018446744073709551615"), Some(u64::MAX));
}

#[test]
fn parse_agrees_with_the_standard_parser() {
    let samples = [
        "", "+", "-", "0", "+0", "-0", "1", "+1", "007", "12345", "1 2", "1_000", "0x10",
        "18446744073709551615", "18446744073709551616", "+18446744073709551615", "９",
    ];
    for text in samples {
        assert_eq!(parse_u64(text), text.parse::<u64>().ok(), "{:?}", text);
    }
}

#[test]
fn parse_inverts_render() {
    let samples: Vec<u64> = vec![0, 1, 9, 10, 99, 100, 65535, 4294967296, u64::MAX];
    for n in samples {
        assert_eq!(parse_u64(&render_decimal(n as u128)), Some(n));
    }
}

#[test]
fn same_text_compares_characters() {
    assert!(same_text("start", "start"));
    assert!(!same_text("start", "stop"));
    assert!(!same_text("start", "Start"));
    assert!(!same_text("id", "id "));
    assert!(same_text("", ""));
    assert!(same_text("Слежу", "Слежу"));
}

#[test]
fn join_puts_the_separator_between_parts() {
    let none: Vec<String> = Vec::new();
    assert_eq!(join_texts(&none, ", "), "");
    assert_eq!(join_texts(&vec!["a".to_string()], ", "), "a");
    assert_eq!(join_texts(&vec!["a".to_string(), "b".to_string()], ", "), "a, b");
    assert_eq!(
        join_texts(&vec!["a".to_string(), "".to_string(), "c".to_string()], " | "),
        "a |  | c"
    );
    assert_eq!(join_texts(&vec!["x".to_string(), "y".to_string()], ""), "xy");
}
