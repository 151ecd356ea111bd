use zeek::hexutil::DecodeError;
use zeek::hexutil::ParseNumError;
use zeek::hexutil::decode_hex;
use zeek::hexutil::decode_hex_fixed;
use zeek::hexutil::parse_hex_quantity;

#[test]
fn decode_plain_hex() {
    assert_eq!(decode_hex("ab"), Ok(vec![0xab]));
    assert_eq!(decode_hex("00ff10"), Ok(vec![0x00, 0xff, 0x10]));
    assert_eq!(decode_hex(""), Ok(vec![]));
}

#[test]
fn decode_strips_prefix() {
    assert_eq!(decode_hex("0xab"), Ok(vec![0xab]));
    assert_eq!(decode_hex("0x0xab"), Ok(vec![0xab]));
    assert_eq!(decode_hex("0x"), Ok(vec![]));
}

#[test]
fn decode_mixed_case() {
    assert_eq!(decode_hex("0xAbCd"), Ok(vec![0xab, 0xcd]));
    assert_eq!(decode_hex("FF"), Ok(vec![0xff]));
}

#[test]
fn decode_rejects_odd_length() {
    assert_eq!(decode_hex("abc"), Err(DecodeError::InvalidHex));
    assert_eq!(decode_hex("0xa"), Err(DecodeError::InvalidHex));
}

#[test]
fn decode_rejects_non_hex() {
    assert_eq!(decode_hex("zz"), Err(DecodeError::InvalidHex));
    assert_eq!(decode_hex("0xg0"), Err(DecodeError::InvalidHex));
    assert_eq!(decode_hex("12 4"), Err(DecodeError::InvalidHex));
}

#[test]
fn decode_fixed_checks_length() {
    assert_eq!(decode_hex_fixed("0x0102", 2), Ok(vec![1, 2]));
    assert_eq!(decode_hex_fixed("0x0102", 3), Err(DecodeError::WrongLength));
    assert_eq!(decode_hex_fixed("0x01", 2), Err(DecodeError::WrongLength));
    // A malformed string is reported before a wrong length.
    assert_eq!(decode_hex_fixed("0x0g", 2), Err(DecodeError::InvalidHex));
}

#[test]
fn parse_quantity_exact_values() {
    assert_eq!(parse_hex_quantity("0x10"), Ok(16));
    assert_eq!(parse_hex_quantity("ff"), Ok(255));
    assert_eq!(parse_hex_quantity("0"), Ok(0));
    assert_eq!(parse_hex_quantity("0x0"), Ok(0));
    assert_eq!(parse_hex_quantity("0xffffffffffffffff"), Ok(u64::MAX));
    assert_eq!(parse_hex_quantity("0x00000000000000000001"), Ok(1));
}

#[test]
fn parse_quantity_accepts_plus_sign() {
    assert_eq!(parse_hex_quantity("+ff"), Ok(255));
    assert_eq!(parse_hex_quantity("+"), Err(ParseNumError::Invalid));
}

#[test]
fn parse_quantity_strips_repeated_prefix() {
    // trim-style stripping removes every leading "0x" occurrence
    assert_eq!(parse_hex_quantity("0x0x5"), Ok(5));
}

#[test]
fn parse_quantity_rejects_malformed() {
    assert_eq!(parse_hex_quantity(""), Err(ParseNumError::Invalid));
    assert_eq!(parse_hex_quantity("0x"), Err(ParseNumError::Invalid));
    assert_eq!(parse_hex_quantity("xyz"), Err(ParseNumError::Invalid));
    assert_eq!(parse_hex_quantity("-5"), Err(ParseNumError::Invalid));
    assert_eq!(parse_hex_quantity("12g3"), Err(ParseNumError::Invalid));
}

#[test]
fn parse_quantity_rejects_overflow() {
    assert_eq!(
        parse_hex_quantity("0x10000000000000000"),
        Err(ParseNumError::Overflow)
    );
    assert_eq!(
        parse_hex_quantity("ffffffffffffffffff"),
        Err(ParseNumError::Overflow)
    );
}

#[test]
fn parse_agrees_with_std() {
    for s in ["0x10", "ff", "+ff", "0", "0xffffffffffffffff", "0x0x5", "abcdef12345"] {
        let stripped = s.trim_start_matches("0x");
        let expected = u64::from_str_radix(stripped, 16);
        let got = parse_hex_quantity(s);
        match (expected, got) {
            (Ok(a), Ok(b)) => assert_eq!(a, b, "value mismatch on {s}"),
            (Err(_), Err(_)) => {}
            (e, g) => panic!("mismatch on {s}: std {e:?}, library {g:?}"),
        }
    }
}
