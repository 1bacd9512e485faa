use health_service::decimal::{digit_of, parse_unsigned, parse_u16, parse_u8, to_decimal, IntParseError};
use std::num::IntErrorKind;

fn reason(kind: &IntErrorKind) -> IntParseError {
    match kind {
        IntErrorKind::Empty => IntParseError::Empty,
        IntErrorKind::InvalidDigit => IntParseError::InvalidDigit,
        IntErrorKind::PosOverflow => IntParseError::PosOverflow,
        other => panic!("unexpected kind {other:?}"),
    }
}

fn std_u16(text: &str) -> Result<u16, IntParseError> {
    text.parse::<u16>().map_err(|e| reason(e.kind()))
}

fn std_u8(text: &str) -> Result<u8, IntParseError> {
    text.parse::<u8>().map_err(|e| reason(e.kind()))
}

fn texts_up_to(alphabet: &[char], length: usize) -> Vec<String> {
    let mut all = vec![String::new()];
    let mut last = vec![String::new()];
    for _ in 0..length {
        let mut next = Vec::new();
        for text in &last {
            for c in alphabet {
                let mut longer = text.clone();
                longer.push(*c);
                next.push(longer);
            }
        }
        all.extend(next.iter().cloned());
        last = next;
    }
    all
}

#[test]
fn digit_of_reads_the_ten_digits() {
    for (value, c) in "0123456789".chars().enumerate() {
        assert_eq!(digit_of(c), Some(value as u8));
    }
}

#[test]
fn digit_of_refuses_everything_else() {
    for c in ['/', ':', ' ', '+', '-', '_', 'a', 'A', '\u{0663}', '\u{ff11}', '\u{0}'] {
        assert_eq!(digit_of(c), None);
    }
}

#[test]
fn parse_u16_reads_plain_numbers() {
    assert_eq!(parse_u16("0"), Ok(0));
    assert_eq!(parse_u16("80"), Ok(80));
    assert_eq!(parse_u16("3000"), Ok(3000));
    assert_eq!(parse_u16("8080"), Ok(8080));
    assert_eq!(parse_u16("65535"), Ok(65535));
}

#[test]
fn parse_u16_accepts_a_plus_sign_and_leading_zeros() {
    assert_eq!(parse_u16("+8080"), Ok(8080));
    assert_eq!(parse_u16("00080"), Ok(80));
    assert_eq!(parse_u16("+000000000000000000000065535"), Ok(65535));
}

#[test]
fn parse_u16_reports_empty_text() {
    assert_eq!(parse_u16(""), Err(IntParseError::Empty));
}

#[test]
fn parse_u16_reports_invalid_digits() {
    for text in ["notanumber", "+", "-", "-1", "-0", "++1", "1+", " 80", "80 ", "8_0", "0x50", "8080\n", "\u{0663}"] {
        assert_eq!(parse_u16(text), Err(IntParseError::InvalidDigit), "{text:?}");
    }
}

#[test]
fn parse_u16_reports_overflow() {
    for text in ["65536", "70000", "99999", "100000", "+65536", "18446744073709551616"] {
        assert_eq!(parse_u16(text), Err(IntParseError::PosOverflow), "{text:?}");
    }
}

#[test]
fn parse_u16_reports_the_first_defect_from_the_left() {
    assert_eq!(parse_u16("99999x"), Err(IntParseError::PosOverflow));
    assert_eq!(parse_u16("9999x9"), Err(IntParseError::InvalidDigit));
    assert_eq!(parse_u16("65535x"), Err(IntParseError::InvalidDigit));
    assert_eq!(parse_u16("65536x"), Err(IntParseError::PosOverflow));
    assert_eq!(parse_u16("x99999"), Err(IntParseError::InvalidDigit));
}

#[test]
fn parse_u8_reads_and_bounds() {
    assert_eq!(parse_u8("0"), Ok(0));
    assert_eq!(parse_u8("10"), Ok(10));
    assert_eq!(parse_u8("255"), Ok(255));
    assert_eq!(parse_u8("+007"), Ok(7));
    assert_eq!(parse_u8("256"), Err(IntParseError::PosOverflow));
    assert_eq!(parse_u8("1000"), Err(IntParseError::PosOverflow));
    assert_eq!(parse_u8(""), Err(IntParseError::Empty));
    assert_eq!(parse_u8("ten"), Err(IntParseError::InvalidDigit));
    assert_eq!(parse_u8("-10"), Err(IntParseError::InvalidDigit));
    assert_eq!(parse_u8("10s"), Err(IntParseError::InvalidDigit));
}

#[test]
fn parse_bounded_honours_small_bounds() {
    assert_eq!(parse_unsigned("5", 5), Ok(5));
    assert_eq!(parse_unsigned("6", 5), Err(IntParseError::PosOverflow));
    assert_eq!(parse_unsigned("0", 0), Ok(0));
    assert_eq!(parse_unsigned("000", 0), Ok(0));
    assert_eq!(parse_unsigned("1", 0), Err(IntParseError::PosOverflow));
    assert_eq!(parse_unsigned("4294967295", u32::MAX), Ok(u32::MAX));
    assert_eq!(parse_unsigned("4294967296", u32::MAX), Err(IntParseError::PosOverflow));
    assert_eq!(parse_unsigned("42949672950", u32::MAX), Err(IntParseError::PosOverflow));
}

#[test]
fn parse_u16_agrees_with_std_on_every_value() {
    for n in 0..=70000u32 {
        let text = n.to_string();
        assert_eq!(parse_u16(&text), std_u16(&text), "{text:?}");
        let signed = format!("+{text}");
        assert_eq!(parse_u16(&signed), std_u16(&signed), "{signed:?}");
        let padded = format!("00{text}");
        assert_eq!(parse_u16(&padded), std_u16(&padded), "{padded:?}");
        let trailed = format!("{text}x");
        assert_eq!(parse_u16(&trailed), std_u16(&trailed), "{trailed:?}");
    }
}

#[test]
fn parse_u16_agrees_with_std_on_short_texts() {
    let alphabet = ['0', '1', '6', '9', '+', '-', ' ', 'x', '_', '\u{e9}'];
    for text in texts_up_to(&alphabet, 4) {
        assert_eq!(parse_u16(&text), std_u16(&text), "{text:?}");
    }
}

#[test]
fn parse_u16_agrees_with_std_on_long_digit_runs() {
    let alphabet = ['0', '5', '6', '9', 'x'];
    for text in texts_up_to(&alphabet, 6) {
        assert_eq!(parse_u16(&text), std_u16(&text), "{text:?}");
    }
}

#[test]
fn parse_u8_agrees_with_std() {
    for n in 0..=1100u32 {
        let text = n.to_string();
        assert_eq!(parse_u8(&text), std_u8(&text), "{text:?}");
        let trailed = format!("{text}9");
        assert_eq!(parse_u8(&trailed), std_u8(&trailed), "{trailed:?}");
    }
    let alphabet = ['0', '2', '5', '6', '+', '-', 'x', ' '];
    for text in texts_up_to(&alphabet, 4) {
        assert_eq!(parse_u8(&text), std_u8(&text), "{text:?}");
    }
}

#[test]
fn to_decimal_writes_exact_digits() {
    assert_eq!(to_decimal(0), "0");
    assert_eq!(to_decimal(7), "7");
    assert_eq!(to_decimal(10), "10");
    assert_eq!(to_decimal(3000), "3000");
    assert_eq!(to_decimal(65535), "65535");
    assert_eq!(to_decimal(4294967295), "4294967295");
}

#[test]
fn to_decimal_agrees_with_std() {
    for n in 0..=70000u32 {
        assert_eq!(to_decimal(n), n.to_string());
    }
    for n in [99_999u32, 100_000, 1_000_000, 123_456_789, u32::MAX - 1, u32::MAX] {
        assert_eq!(to_decimal(n), n.to_string());
    }
}

#[test]
fn reading_what_was_written_gives_the_number_back() {
    for n in 0..=65535u32 {
        assert_eq!(parse_u16(&to_decimal(n)), Ok(n as u16));
        assert_eq!(parse_unsigned(&to_decimal(n), n), Ok(n));
    }
    for n in 0..=255u32 {
        assert_eq!(parse_u8(&to_decimal(n)), Ok(n as u8));
    }
}
