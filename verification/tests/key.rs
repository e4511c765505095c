use xor_cipher::key::parse_key;

#[test]
fn parse_key_reads_the_whole_range() {
    assert_eq!(parse_key("0"), Some(0));
    assert_eq!(parse_key("5"), Some(5));
    assert_eq!(parse_key("10"), Some(10));
    assert_eq!(parse_key("99"), Some(99));
    assert_eq!(parse_key("128"), Some(128));
    assert_eq!(parse_key("255"), Some(255));
}

#[test]
fn parse_key_refuses_what_does_not_fit_a_byte() {
    assert_eq!(parse_key("256"), None);
    assert_eq!(parse_key("260"), None);
    assert_eq!(parse_key("300"), None);
    assert_eq!(parse_key("1000"), None);
    assert_eq!(parse_key("65536"), None);
    assert_eq!(parse_key("99999999999999999999999999"), None);
}

#[test]
fn parse_key_refuses_negative_numbers() {
    assert_eq!(parse_key("-1"), None);
    assert_eq!(parse_key("-0"), None);
    assert_eq!(parse_key("-"), None);
}

#[test]
fn parse_key_refuses_what_is_no_number() {
    assert_eq!(parse_key(""), None);
    assert_eq!(parse_key("abc"), None);
    assert_eq!(parse_key("12a"), None);
    assert_eq!(parse_key("a12"), None);
    assert_eq!(parse_key("1 2"), None);
    assert_eq!(parse_key(" 5"), None);
    assert_eq!(parse_key("5 "), None);
    assert_eq!(parse_key("1_0"), None);
    assert_eq!(parse_key("0x10"), None);
    assert_eq!(parse_key("1.0"), None);
    assert_eq!(parse_key("٣"), None);
    assert_eq!(parse_key("5é"), None);
}

#[test]
fn parse_key_takes_one_plus_sign_and_leading_zeros() {
    assert_eq!(parse_key("+5"), Some(5));
    assert_eq!(parse_key("+255"), Some(255));
    assert_eq!(parse_key("+256"), None);
    assert_eq!(parse_key("+"), None);
    assert_eq!(parse_key("++5"), None);
    assert_eq!(parse_key("5+"), None);
    assert_eq!(parse_key("007"), Some(7));
    assert_eq!(parse_key("000000000000000000000255"), Some(255));
    assert_eq!(parse_key("0256"), None);
}

#[test]
fn parse_key_agrees_with_the_standard_parser() {
    for number in 0..=1200u32 {
        let text = number.to_string();
        assert_eq!(parse_key(&text), text.parse::<u8>().ok());
        let signed = format!("+{}", number);
        assert_eq!(parse_key(&signed), signed.parse::<u8>().ok());
        let negative = format!("-{}", number);
        assert_eq!(parse_key(&negative), negative.parse::<u8>().ok());
        let padded = format!("00{}", number);
        assert_eq!(parse_key(&padded), padded.parse::<u8>().ok());
    }
    for text in ["", "+", "-", "+-1", "٣", "1e2", "٠", "12 ", "\t12", "2５"] {
        assert_eq!(parse_key(text), text.parse::<u8>().ok());
    }
}
