use midihex::decode::{chars_of, decode, decode_token, token_spans};
use midihex::error::{Error, ParseCause};

fn parse_error(token: &str, cause: ParseCause) -> Error {
    Error::Parse { token: token.to_string(), cause }
}

#[test]
fn decode_empty_line_gives_no_bytes() {
    assert_eq!(decode(""), Ok(vec![]));
}

#[test]
fn decode_line_of_spaces_gives_no_bytes() {
    assert_eq!(decode("   "), Ok(vec![]));
    assert_eq!(decode(" "), Ok(vec![]));
}

#[test]
fn decode_reads_tokens_in_order() {
    assert_eq!(decode("f0 42 30 7f f7"), Ok(vec![0xf0, 0x42, 0x30, 0x7f, 0xf7]));
    assert_eq!(decode("90 3c 7f"), Ok(vec![0x90, 0x3c, 0x7f]));
}

#[test]
fn decode_reads_one_token() {
    assert_eq!(decode("00"), Ok(vec![0x00]));
    assert_eq!(decode("ff"), Ok(vec![0xff]));
    assert_eq!(decode("10"), Ok(vec![16]));
    assert_eq!(decode("01"), Ok(vec![1]));
    assert_eq!(decode("a9"), Ok(vec![169]));
}

#[test]
fn decode_takes_either_case() {
    assert_eq!(decode("F0 7F"), Ok(vec![0xf0, 0x7f]));
    assert_eq!(decode("aB Cd eF"), Ok(vec![0xab, 0xcd, 0xef]));
}

#[test]
fn decode_tolerates_runs_of_spaces() {
    assert_eq!(decode("  90   3c 7f  "), Ok(vec![0x90, 0x3c, 0x7f]));
    assert_eq!(decode("01  02"), Ok(vec![1, 2]));
}

#[test]
fn decode_rejects_letters_that_are_no_digits() {
    assert_eq!(decode("zz"), Err(parse_error("zz", ParseCause::InvalidDigit)));
    assert_eq!(decode("0g"), Err(parse_error("0g", ParseCause::InvalidDigit)));
    assert_eq!(decode("g0"), Err(parse_error("g0", ParseCause::InvalidDigit)));
}

#[test]
fn decode_rejects_single_digit() {
    assert_eq!(decode("1"), Err(parse_error("1", ParseCause::WrongLength)));
    assert_eq!(decode("90 3 7f"), Err(parse_error("3", ParseCause::WrongLength)));
}

#[test]
fn decode_rejects_long_tokens() {
    assert_eq!(decode("100"), Err(parse_error("100", ParseCause::WrongLength)));
    assert_eq!(decode("001"), Err(parse_error("001", ParseCause::WrongLength)));
    assert_eq!(decode("903c7f"), Err(parse_error("903c7f", ParseCause::WrongLength)));
}

#[test]
fn decode_rejects_signs_and_prefixes() {
    assert_eq!(decode("+f"), Err(parse_error("+f", ParseCause::InvalidDigit)));
    assert_eq!(decode("-1"), Err(parse_error("-1", ParseCause::InvalidDigit)));
    assert_eq!(decode("0x"), Err(parse_error("0x", ParseCause::InvalidDigit)));
}

#[test]
fn decode_cuts_at_spaces_only() {
    assert_eq!(decode("90\t3c"), Err(parse_error("90\t3c", ParseCause::InvalidDigit)));
    assert_eq!(decode("90 3c\n"), Err(parse_error("3c\n", ParseCause::InvalidDigit)));
}

#[test]
fn decode_reports_a_bad_digit_before_a_bad_length() {
    assert_eq!(decode("zzz"), Err(parse_error("zzz", ParseCause::InvalidDigit)));
    assert_eq!(decode("z"), Err(parse_error("z", ParseCause::InvalidDigit)));
}

#[test]
fn decode_names_the_first_token_at_fault() {
    assert_eq!(decode("90 xx 7 yy"), Err(parse_error("xx", ParseCause::InvalidDigit)));
    assert_eq!(decode("90 7 xx"), Err(parse_error("7", ParseCause::WrongLength)));
}

#[test]
fn decode_gives_no_bytes_of_a_line_at_fault() {
    assert!(decode("90 3c 7f zz").is_err());
    assert!(decode("zz 90 3c 7f").is_err());
}

#[test]
fn decode_names_tokens_beyond_ascii() {
    assert_eq!(decode("90 \u{e9}1 7f"), Err(parse_error("\u{e9}1", ParseCause::InvalidDigit)));
    assert_eq!(decode("\u{ff10}\u{ff11}"), Err(parse_error("\u{ff10}\u{ff11}", ParseCause::InvalidDigit)));
}

#[test]
fn decode_token_reads_two_digits() {
    assert_eq!(decode_token(&['7', 'f']), Ok(0x7f));
    assert_eq!(decode_token(&['7', 'F']), Ok(0x7f));
    assert_eq!(decode_token(&['0', '0']), Ok(0));
    assert_eq!(decode_token(&[]), Err(ParseCause::WrongLength));
    assert_eq!(decode_token(&['7']), Err(ParseCause::WrongLength));
    assert_eq!(decode_token(&['7', 'f', '0']), Err(ParseCause::WrongLength));
    assert_eq!(decode_token(&['7', ' ']), Err(ParseCause::InvalidDigit));
}

#[test]
fn token_spans_mark_the_tokens() {
    let chars = chars_of(" ab  c d ");
    assert_eq!(chars, vec![' ', 'a', 'b', ' ', ' ', 'c', ' ', 'd', ' ']);
    assert_eq!(token_spans(&chars), vec![(1, 3), (5, 6), (7, 8)]);
    assert_eq!(token_spans(&chars_of("")), vec![]);
    assert_eq!(token_spans(&chars_of("  ")), vec![]);
    assert_eq!(token_spans(&chars_of("abc")), vec![(0, 3)]);
}
