use midihex::decode::decode;
use midihex::digits::{hex_value, push_decimal, push_hex_pair};
use midihex::format::Options;

const PLAIN: Options = Options { show_ts: false, show_size: false };

#[test]
fn format_with_time_and_size() {
    let options = Options { show_ts: true, show_size: true };
    assert_eq!(midihex::format::format(1000, &[0xF0, 0x7F], &options), "1000 2 f0 7f\n");
}

#[test]
fn format_empty_message_is_a_bare_newline() {
    assert_eq!(midihex::format::format(0, &[], &PLAIN), "\n");
}

#[test]
fn format_without_prefixes() {
    assert_eq!(midihex::format::format(77, &[0x90, 0x3c, 0x7f], &PLAIN), "90 3c 7f\n");
    assert_eq!(midihex::format::format(77, &[0x0a], &PLAIN), "0a\n");
}

#[test]
fn format_with_time_only() {
    let options = Options { show_ts: true, show_size: false };
    assert_eq!(midihex::format::format(5, &[0x01, 0xab], &options), "5 01 ab\n");
    assert_eq!(midihex::format::format(0, &[], &options), "0 \n");
}

#[test]
fn format_with_size_only() {
    let options = Options { show_ts: false, show_size: true };
    assert_eq!(midihex::format::format(5, &[0x01, 0xab, 0xff], &options), "3 01 ab ff\n");
    assert_eq!(midihex::format::format(5, &[], &options), "0 \n");
}

#[test]
fn format_prints_the_largest_time() {
    let options = Options { show_ts: true, show_size: true };
    assert_eq!(
        midihex::format::format(u64::MAX, &[0x00], &options),
        "18446744073709551615 1 00\n"
    );
}

#[test]
fn format_counts_in_decimal() {
    let options = Options { show_ts: false, show_size: true };
    let data = [0x11u8; 12];
    assert_eq!(
        midihex::format::format(0, &data, &options),
        "12 11 11 11 11 11 11 11 11 11 11 11 11\n"
    );
}

#[test]
fn format_writes_every_byte_as_two_lowercase_digits() {
    for b in 0..=255u8 {
        let line = midihex::format::format(0, &[b], &PLAIN);
        assert_eq!(line, format!("{:02x}\n", b));
    }
}

#[test]
fn format_of_decoded_line_is_its_canonical_spelling() {
    let bytes = decode("  F0  7f 0A ").unwrap();
    assert_eq!(midihex::format::format(9, &bytes, &PLAIN), "f0 7f 0a\n");
    let bytes = decode("aB").unwrap();
    assert_eq!(midihex::format::format(9, &bytes, &PLAIN), "ab\n");
    let bytes = decode(" ").unwrap();
    assert_eq!(midihex::format::format(9, &bytes, &PLAIN), "\n");
}

#[test]
fn decode_reads_back_what_format_wrote() {
    let data: Vec<u8> = (0..=255u8).collect();
    let line = midihex::format::format(0, &data, &PLAIN);
    assert_eq!(decode(line.trim_end_matches('\n')), Ok(data));
}

#[test]
fn push_decimal_writes_without_leading_zeros() {
    let mut out = String::from("n=");
    push_decimal(&mut out, 0);
    out.push(',');
    push_decimal(&mut out, 9);
    out.push(',');
    push_decimal(&mut out, 10);
    out.push(',');
    push_decimal(&mut out, 1_000_000);
    out.push(',');
    push_decimal(&mut out, u128::MAX);
    assert_eq!(out, "n=0,9,10,1000000,340282366920938463463374607431768211455");
}

#[test]
fn push_hex_pair_appends_two_digits() {
    let mut out = String::from(">");
    push_hex_pair(&mut out, 0x00);
    push_hex_pair(&mut out, 0x9f);
    push_hex_pair(&mut out, 0xf9);
    assert_eq!(out, ">009ff9");
}

#[test]
fn hex_value_knows_the_digits_of_both_cases() {
    assert_eq!(hex_value('0'), Some(0));
    assert_eq!(hex_value('9'), Some(9));
    assert_eq!(hex_value('a'), Some(10));
    assert_eq!(hex_value('f'), Some(15));
    assert_eq!(hex_value('A'), Some(10));
    assert_eq!(hex_value('F'), Some(15));
    assert_eq!(hex_value('g'), None);
    assert_eq!(hex_value('G'), None);
    assert_eq!(hex_value('/'), None);
    assert_eq!(hex_value(':'), None);
    assert_eq!(hex_value('@'), None);
    assert_eq!(hex_value('`'), None);
    assert_eq!(hex_value(' '), None);
}
