use build_debugger_in_rust::address::parse_address;
use build_debugger_in_rust::error::DebuggerError;

#[test]
fn parses_plain_hexadecimal() {
    assert_eq!(parse_address("401000"), Ok(0x401000));
    assert_eq!(parse_address("0"), Ok(0));
    assert_eq!(parse_address("4ae682"), Ok(0x4ae682));
    assert_eq!(parse_address("1f"), Ok(31));
}

#[test]
fn both_cases_of_the_letters_count() {
    assert_eq!(parse_address("DEADbeef"), Ok(0xdead_beef));
    assert_eq!(parse_address("abcdef"), Ok(0xabcdef));
    assert_eq!(parse_address("ABCDEF"), Ok(0xabcdef));
}

#[test]
fn leading_zeros_and_one_plus_sign_are_accepted() {
    assert_eq!(parse_address("000000000000000000000010"), Ok(16));
    assert_eq!(parse_address("+401000"), Ok(0x401000));
}

#[test]
fn the_whole_range_of_64_bits_is_accepted() {
    assert_eq!(parse_address("ffffffffffffffff"), Ok(u64::MAX));
    assert_eq!(parse_address("8000000000000000"), Ok(1 << 63));
}

#[test]
fn a_number_beyond_64_bits_is_invalid() {
    assert_eq!(parse_address("10000000000000000"), Err(DebuggerError::InvalidAddress));
    assert_eq!(parse_address("fffffffffffffffff"), Err(DebuggerError::InvalidAddress));
}

#[test]
fn an_empty_text_is_invalid() {
    assert_eq!(parse_address(""), Err(DebuggerError::InvalidAddress));
    assert_eq!(parse_address("+"), Err(DebuggerError::InvalidAddress));
}

#[test]
fn a_character_that_is_no_digit_is_invalid() {
    assert_eq!(parse_address("0x401000"), Err(DebuggerError::InvalidAddress));
    assert_eq!(parse_address("401000 "), Err(DebuggerError::InvalidAddress));
    assert_eq!(parse_address(" 401000"), Err(DebuggerError::InvalidAddress));
    assert_eq!(parse_address("-1"), Err(DebuggerError::InvalidAddress));
    assert_eq!(parse_address("++1"), Err(DebuggerError::InvalidAddress));
    assert_eq!(parse_address("40_1000"), Err(DebuggerError::InvalidAddress));
    assert_eq!(parse_address("g"), Err(DebuggerError::InvalidAddress));
    assert_eq!(parse_address("main"), Err(DebuggerError::InvalidAddress));
    assert_eq!(parse_address("40é"), Err(DebuggerError::InvalidAddress));
    assert_eq!(parse_address("４０"), Err(DebuggerError::InvalidAddress));
}

#[test]
fn agrees_with_the_standard_parser() {
    let texts = [
        "", "+", "-", "0", "+0", "-0", "7", "a", "A", "g", "G", "/", ":", "@", "`", "10", "fF",
        "0x1", "1 ", "dead", "+dead", "+-1", "ffffffffffffffff", "10000000000000000",
        "00000000000000000000000000000001", "123456789abcdef0", "é",
    ];
    for text in texts {
        assert_eq!(parse_address(text).ok(), u64::from_str_radix(text, 16).ok(), "{:?}", text);
    }
}
