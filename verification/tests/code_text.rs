use nes_emu::code_text::{parse_code, ParseError};

#[test]
fn parse_code_reads_hex_bytes_in_order() {
    assert_eq!(parse_code("A9 01 8D 00 02"), Ok(vec![0xA9, 0x01, 0x8D, 0x00, 0x02]));
}

#[test]
fn parse_code_accepts_lower_case_and_prefixes() {
    assert_eq!(parse_code("a9 0x0f 0XFF"), Ok(vec![0xA9, 0x0F, 0xFF]));
}

#[test]
fn parse_code_separates_on_commas_and_newlines() {
    assert_eq!(parse_code("01,02\n03\t04,,05\r\n06"), Ok(vec![1, 2, 3, 4, 5, 6]));
}

#[test]
fn parse_code_skips_hash_and_slash_comments() {
    let text = "A9 01 # load one\n// a whole line of comment\n85 02 // store";
    assert_eq!(parse_code(text), Ok(vec![0xA9, 0x01, 0x85, 0x02]));
}

#[test]
fn parse_code_comment_ends_at_line_end() {
    assert_eq!(parse_code("01 # 02\n03"), Ok(vec![0x01, 0x03]));
}

#[test]
fn parse_code_single_digit_and_plus_sign() {
    assert_eq!(parse_code("7 +A"), Ok(vec![0x07, 0x0A]));
}

#[test]
fn parse_code_trims_unicode_white_space_around_tokens() {
    assert_eq!(parse_code("\u{A0}A9\u{A0} 01"), Ok(vec![0xA9, 0x01]));
}

#[test]
fn parse_code_reports_invalid_token_without_prefix() {
    assert_eq!(parse_code("A9 0xZZ 01"), Err(ParseError::InvalidByte(vec!['Z', 'Z'])));
}

#[test]
fn parse_code_reports_first_invalid_token() {
    assert_eq!(parse_code("GG HH"), Err(ParseError::InvalidByte(vec!['G', 'G'])));
}

#[test]
fn parse_code_rejects_value_above_a_byte() {
    assert_eq!(parse_code("100"), Err(ParseError::InvalidByte(vec!['1', '0', '0'])));
}

#[test]
fn parse_code_rejects_bare_prefix() {
    assert_eq!(parse_code("0x"), Err(ParseError::InvalidByte(vec![])));
}

#[test]
fn parse_code_rejects_empty_text() {
    assert_eq!(parse_code(""), Err(ParseError::Empty));
    assert_eq!(parse_code("  , \n # only a comment"), Err(ParseError::Empty));
}

#[test]
fn parse_code_accepts_largest_program() {
    let text = "00 ".repeat(64000);
    let code = parse_code(&text).unwrap();
    assert_eq!(code.len(), 64000);
}

#[test]
fn parse_code_rejects_too_large_program() {
    let text = "00 ".repeat(64001);
    assert_eq!(parse_code(&text), Err(ParseError::TooLarge(64001)));
}

#[test]
fn parse_error_messages() {
    assert_eq!(
        ParseError::InvalidByte(vec!['Z', 'Z']).message(),
        "Invalid byte `ZZ`. Use hex values like A9 or 0xA9."
    );
    assert_eq!(ParseError::Empty.message(), "Program is empty.");
    assert_eq!(
        ParseError::TooLarge(64001).message(),
        "Program is too large: 64001 bytes, max is 64000."
    );
    assert_eq!(
        ParseError::TooLarge(7).message(),
        "Program is too large: 7 bytes, max is 64000."
    );
}

#[test]
fn parse_error_message_of_parsed_text() {
    let e = parse_code("A9 0x1G").unwrap_err();
    assert_eq!(e.message(), "Invalid byte `1G`. Use hex values like A9 or 0xA9.");
}
