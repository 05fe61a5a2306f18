use std::num::IntErrorKind;
use struct_layout::text::{concat3, parse_usize, same_text, usize_to_text, NumberError};

fn std_parse(text: &str) -> Result<usize, NumberError> {
    text.parse::<usize>().map_err(|err| match err.kind() {
        IntErrorKind::Empty => NumberError::Empty,
        IntErrorKind::InvalidDigit => NumberError::InvalidDigit,
        IntErrorKind::PosOverflow => NumberError::TooLarge,
        other => panic!("{:?}", other),
    })
}

#[test]
fn parse_usize_reads_decimal() {
    assert_eq!(parse_usize("0"), Ok(0));
    assert_eq!(parse_usize("16"), Ok(16));
    assert_eq!(parse_usize("+7"), Ok(7));
    assert_eq!(parse_usize("007"), Ok(7));
    assert_eq!(parse_usize("1234567890"), Ok(1234567890));
    assert_eq!(parse_usize(&usize::MAX.to_string()), Ok(usize::MAX));
}

#[test]
fn parse_usize_names_the_fault() {
    assert_eq!(parse_usize(""), Err(NumberError::Empty));
    assert_eq!(parse_usize("+"), Err(NumberError::InvalidDigit));
    assert_eq!(parse_usize("-"), Err(NumberError::InvalidDigit));
    assert_eq!(parse_usize("-1"), Err(NumberError::InvalidDigit));
    assert_eq!(parse_usize("++1"), Err(NumberError::InvalidDigit));
    assert_eq!(parse_usize("16usize"), Err(NumberError::InvalidDigit));
    assert_eq!(parse_usize("0x10"), Err(NumberError::InvalidDigit));
    assert_eq!(parse_usize("1_000"), Err(NumberError::InvalidDigit));
    assert_eq!(parse_usize(" 1"), Err(NumberError::InvalidDigit));
    assert_eq!(parse_usize("1 "), Err(NumberError::InvalidDigit));
    assert_eq!(parse_usize("\u{0661}"), Err(NumberError::InvalidDigit));
    assert_eq!(parse_usize("1é"), Err(NumberError::InvalidDigit));
    assert_eq!(parse_usize("99999999999999999999999999999999999999999"), Err(NumberError::TooLarge));
    let above = format!("{}", usize::MAX as u128 + 1);
    assert_eq!(parse_usize(&above), Err(NumberError::TooLarge));
}

#[test]
fn parse_usize_complains_about_the_first_character_it_cannot_take() {
    assert_eq!(parse_usize("99999999999999999999999999999999999999999x"), Err(NumberError::TooLarge));
    assert_eq!(parse_usize("9x999999999999999999999999999999999999999"), Err(NumberError::InvalidDigit));
    let max = usize::MAX.to_string();
    assert_eq!(parse_usize(&format!("{}x", max)), Err(NumberError::InvalidDigit));
    assert_eq!(parse_usize(&format!("{}0", max)), Err(NumberError::TooLarge));
}

#[test]
fn parse_usize_agrees_with_the_standard_library() {
    let max = usize::MAX.to_string();
    let mut texts: Vec<String> = [
        "", "+", "-", "0", "00", "+0", "-0", "1", "+1", "-1", "++1", "+-1", "1+", "12", "1 2",
        " 12", "12 ", "1_2", "0x1", "1e3", "1.0", "12usize", "a", "٣", "1٣", "\u{ff11}",
        "18446744073709551615", "18446744073709551616", "18446744073709551617",
        "4294967295", "4294967296", "99999999999999999999", "000000000000000000000000000001",
        "999999999999999999999999999999x", "9x99999999999999999999999999999",
        "+18446744073709551615", "+18446744073709551616", "18446744073709551615x",
        "1844674407370955161x", "184467440737095516150", "18446744073709551620",
    ]
    .iter()
    .map(|s| s.to_string())
    .collect();
    texts.push(max.clone());
    texts.push(format!("{}1", max));
    texts.push(format!("+{}", max));
    for n in 0..300usize {
        texts.push(n.to_string());
        texts.push((usize::MAX - n).to_string());
        texts.push((usize::MAX as u128 + n as u128).to_string());
    }
    for text in &texts {
        assert_eq!(parse_usize(text), std_parse(text), "{:?}", text);
    }
}

#[test]
fn usize_to_text_writes_decimal() {
    assert_eq!(usize_to_text(0), "0");
    assert_eq!(usize_to_text(7), "7");
    assert_eq!(usize_to_text(10), "10");
    assert_eq!(usize_to_text(16), "16");
    assert_eq!(usize_to_text(1234567890), "1234567890");
    assert_eq!(usize_to_text(usize::MAX), usize::MAX.to_string());
    for n in 0..2000usize {
        assert_eq!(usize_to_text(n), n.to_string());
        assert_eq!(usize_to_text(usize::MAX - n), (usize::MAX - n).to_string());
    }
}

#[test]
fn text_written_is_read_back() {
    for n in [0usize, 1, 9, 10, 99, 100, 12345, usize::MAX / 10, usize::MAX - 1, usize::MAX] {
        assert_eq!(parse_usize(&usize_to_text(n)), Ok(n));
    }
}

#[test]
fn same_text_compares_spellings() {
    assert!(same_text("field", "field"));
    assert!(!same_text("field", "Field"));
    assert!(!same_text("field", "fiel"));
    assert!(!same_text("", "x"));
    assert!(same_text("", ""));
}

#[test]
fn concat3_joins_in_order() {
    assert_eq!(concat3("fn ", "x", "_ref"), "fn x_ref");
    assert_eq!(concat3("", "", ""), "");
}
