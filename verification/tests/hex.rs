use request_tracing::hex::hex_digit;
use request_tracing::hex::parse_hex;

fn chars(text: &str) -> Vec<char> {
    text.chars().collect()
}

#[test]
fn hex_digit_values() {
    assert_eq!(hex_digit('0'), Some(0));
    assert_eq!(hex_digit('9'), Some(9));
    assert_eq!(hex_digit('a'), Some(10));
    assert_eq!(hex_digit('f'), Some(15));
    assert_eq!(hex_digit('g'), None);
    assert_eq!(hex_digit('A'), None);
    assert_eq!(hex_digit('/'), None);
    assert_eq!(hex_digit(':'), None);
    assert_eq!(hex_digit('`'), None);
}

#[test]
fn parse_hex_reads_most_significant_digit_first() {
    assert_eq!(parse_hex(&chars("ff"), 0, 2), Some(255));
    assert_eq!(parse_hex(&chars("0100"), 0, 4), Some(256));
    assert_eq!(parse_hex(&chars("xx1f"), 2, 2), Some(31));
    assert_eq!(parse_hex(&chars("abc"), 1, 0), Some(0));
}

#[test]
fn parse_hex_spans_all_of_128_bits() {
    assert_eq!(parse_hex(&chars("ffffffffffffffffffffffffffffffff"), 0, 32), Some(u128::MAX));
    assert_eq!(
        parse_hex(&chars("09e04486820349518ac7b5d2adbf6ba5"), 0, 32),
        Some(0x09e04486820349518ac7b5d2adbf6ba5)
    );
    assert_eq!(parse_hex(&chars("00000000000000000000000000000000"), 0, 32), Some(0));
}

#[test]
fn parse_hex_refuses_anything_but_lowercase_digits() {
    assert_eq!(parse_hex(&chars("fF"), 0, 2), None);
    assert_eq!(parse_hex(&chars("1g"), 0, 2), None);
    assert_eq!(parse_hex(&chars("-1"), 0, 2), None);
    assert_eq!(parse_hex(&chars("+1"), 0, 2), None);
}
