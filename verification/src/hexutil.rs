//! Hex-string decoding and encoding, and the `0x` prefix convention used by
//! every textual input of the proof verifier.

use vstd::prelude::*;
use vstd::string::StrSliceExecFns;

verus! {

/// Why a textual input was rejected.
#[derive(Clone, Copy, Debug, PartialEq, Eq, Structural)]
pub enum DecodeError {
    /// The hex string has an odd number of digits or a non-hex character.
    InvalidHex,
    /// The decoded bytes do not have the length the protocol fixes
    /// for this field.
    WrongLength,
}

/// Is `c` one of the characters the hex alphabet admits (either case)?
pub open spec fn is_hex_digit(c: char) -> bool {
    c == '0' || c == '1' || c == '2' || c == '3' || c == '4' || c == '5' || c == '6' || c == '7'
        || c == '8' || c == '9' || c == 'a' || c == 'b' || c == 'c' || c == 'd' || c == 'e'
        || c == 'f' || c == 'A' || c == 'B' || c == 'C' || c == 'D' || c == 'E' || c == 'F'
}

/// The numeric value of one hex digit.
pub open spec fn hex_digit_value(c: char) -> u8 {
    if c == '0' {
        0
    } else if c == '1' {
        1
    } else if c == '2' {
        2
    } else if c == '3' {
        3
    } else if c == '4' {
        4
    } else if c == '5' {
        5
    } else if c == '6' {
        6
    } else if c == '7' {
        7
    } else if c == '8' {
        8
    } else if c == '9' {
        9
    } else if c == 'a' || c == 'A' {
        10
    } else if c == 'b' || c == 'B' {
        11
    } else if c == 'c' || c == 'C' {
        12
    } else if c == 'd' || c == 'D' {
        13
    } else if c == 'e' || c == 'E' {
        14
    } else if c == 'f' || c == 'F' {
        15
    } else {
        0
    }
}

/// A string decodes as hex iff it has an even number of characters,
/// all of them hex digits.
pub open spec fn valid_hex(s: Seq<char>) -> bool {
    &&& s.len() % 2 == 0
    &&& forall|i: int| 0 <= i < s.len() ==> is_hex_digit(#[trigger] s[i])
}

/// The bytes a valid hex string denotes: two digits per byte,
/// high nibble first.
pub open spec fn bytes_of_hex(s: Seq<char>) -> Seq<u8> {
    Seq::new((s.len() / 2) as nat, |i: int| (hex_digit_value(s[2 * i]) * 16 + hex_digit_value(s[2 * i + 1])) as u8)
}

/// A string with every leading `0x` occurrence removed.
pub open spec fn strip_hex_prefix(s: Seq<char>) -> Seq<char>
    decreases s.len(),
{
    if s.len() >= 2 && s[0] == '0' && s[1] == 'x' {
        strip_hex_prefix(s.skip(2))
    } else {
        s
    }
}

/// The lowercase hex digit for a value below 16.
pub open spec fn hex_char(v: u8) -> char {
    if v == 0 {
        '0'
    } else if v == 1 {
        '1'
    } else if v == 2 {
        '2'
    } else if v == 3 {
        '3'
    } else if v == 4 {
        '4'
    } else if v == 5 {
        '5'
    } else if v == 6 {
        '6'
    } else if v == 7 {
        '7'
    } else if v == 8 {
        '8'
    } else if v == 9 {
        '9'
    } else if v == 10 {
        'a'
    } else if v == 11 {
        'b'
    } else if v == 12 {
        'c'
    } else if v == 13 {
        'd'
    } else if v == 14 {
        'e'
    } else {
        'f'
    }
}

/// The lowercase hex encoding of a byte sequence: two digits per byte,
/// high nibble first.
pub open spec fn hex_chars_of(b: Seq<u8>) -> Seq<char> {
    Seq::new((b.len() * 2) as nat, |i: int| if i % 2 == 0 {
        hex_char(b[i / 2] / 16)
    } else {
        hex_char(b[i / 2] % 16)
    })
}

/// Why a hex-encoded quantity was rejected.
#[derive(Clone, Copy, Debug, PartialEq, Eq, Structural)]
pub enum ParseNumError {
    /// No digits at all, or a character outside the hex alphabet.
    Invalid,
    /// The digits denote a value above what 64 bits hold.
    Overflow,
}

/// The digit run of a quantity string: an optional leading `+` sign is
/// not part of the digits.
pub open spec fn hex_num_digits(s: Seq<char>) -> Seq<char> {
    if s.len() > 0 && s[0] == '+' {
        s.skip(1)
    } else {
        s
    }
}

/// A quantity string is well formed when its digit run is nonempty and
/// holds hex digits only.
pub open spec fn hex_num_wellformed(s: Seq<char>) -> bool {
    &&& hex_num_digits(s).len() > 0
    &&& forall|i: int|
        0 <= i < hex_num_digits(s).len() ==> is_hex_digit(#[trigger] hex_num_digits(s)[i])
}

/// The number a run of hex digits denotes, most-significant digit first.
pub open spec fn hex_num_value(d: Seq<char>) -> nat
    decreases d.len(),
{
    if d.len() == 0 {
        0
    } else {
        hex_num_value(d.drop_last()) * 16 + hex_digit_value(d.last()) as nat
    }
}

/// A longer digit run never denotes a smaller number than any of its
/// prefixes.
pub proof fn lemma_hex_num_value_prefix(d: Seq<char>, i: int)
    requires
        0 <= i <= d.len(),
    ensures
        hex_num_value(d) >= hex_num_value(d.subrange(0, i)),
    decreases d.len() - i,
{
    if i < d.len() {
        lemma_hex_num_value_prefix(d, i + 1);
        assert(d.subrange(0, i + 1).drop_last() =~= d.subrange(0, i));
        assert(hex_num_value(d.subrange(0, i + 1)) == hex_num_value(d.subrange(0, i)) * 16
            + hex_digit_value(d.subrange(0, i + 1).last()));
    } else {
        assert(d.subrange(0, i) =~= d);
    }
}

/// The numeric value of one hex digit, or nothing for any other character.
pub fn hex_digit_of(c: char) -> (r: Option<u8>)
    ensures
        r is Some <==> is_hex_digit(c),
        r is Some ==> r->0 == hex_digit_value(c),
{
    match c {
        '0' => Some(0),
        '1' => Some(1),
        '2' => Some(2),
        '3' => Some(3),
        '4' => Some(4),
        '5' => Some(5),
        '6' => Some(6),
        '7' => Some(7),
        '8' => Some(8),
        '9' => Some(9),
        'a' => Some(10),
        'b' => Some(11),
        'c' => Some(12),
        'd' => Some(13),
        'e' => Some(14),
        'f' => Some(15),
        'A' => Some(10),
        'B' => Some(11),
        'C' => Some(12),
        'D' => Some(13),
        'E' => Some(14),
        'F' => Some(15),
        _ => None,
    }
}

/// Parse a hex-digit run (an optional `+` sign allowed) as a 64-bit
/// quantity. Malformed text is one error; a value above 64 bits the other.
pub fn parse_hex_u64(s: &str) -> (r: Result<u64, ParseNumError>)
    ensures
        r is Ok <==> hex_num_wellformed(s@) && hex_num_value(hex_num_digits(s@)) <= u64::MAX,
        r is Ok ==> r->Ok_0 == hex_num_value(hex_num_digits(s@)),
        r is Err ==> r == Err::<u64, ParseNumError>(
            if !hex_num_wellformed(s@) {
                ParseNumError::Invalid
            } else {
                ParseNumError::Overflow
            },
        ),
{
    let len = s.unicode_len();
    let start: usize = if len > 0 && s.get_char(0) == '+' {
        1
    } else {
        0
    };
    let ghost d = hex_num_digits(s@);
    proof {
        assert(d =~= s@.subrange(start as int, len as int));
    }
    if start == len {
        return Err(ParseNumError::Invalid);
    }
    let mut i: usize = start;
    while i < len
        invariant
            start <= i <= len,
            len == s@.len(),
            d == hex_num_digits(s@),
            d =~= s@.subrange(start as int, len as int),
            forall|k: int| 0 <= k < i - start ==> is_hex_digit(#[trigger] d[k]),
        decreases len - i,
    {
        if hex_digit_of(s.get_char(i)).is_none() {
            assert(d[i - start] == s@[i as int]);
            return Err(ParseNumError::Invalid);
        }
        assert(d[i - start] == s@[i as int]);
        i += 1;
    }
    assert(hex_num_wellformed(s@));
    let mut acc: u64 = 0;
    let mut j: usize = start;
    while j < len
        invariant
            start <= j <= len,
            len == s@.len(),
            d == hex_num_digits(s@),
            d =~= s@.subrange(start as int, len as int),
            forall|k: int| 0 <= k < d.len() ==> is_hex_digit(#[trigger] d[k]),
            acc == hex_num_value(d.subrange(0, j - start)),
        decreases len - j,
    {
        let c = s.get_char(j);
        assert(c == d[j - start]);
        let dv = hex_digit_of(c).unwrap();
        proof {
            assert(d.subrange(0, j - start + 1).drop_last() =~= d.subrange(0, j - start));
            assert(hex_num_value(d.subrange(0, j - start + 1)) == hex_num_value(
                d.subrange(0, j - start),
            ) * 16 + hex_digit_value(d.subrange(0, j - start + 1).last()));
        }
        if acc >= 0x1000000000000000 {
            proof {
                lemma_hex_num_value_prefix(d, j - start + 1);
            }
            return Err(ParseNumError::Overflow);
        }
        acc = acc * 16 + (dv as u64);
        j += 1;
    }
    proof {
        assert(d.subrange(0, len - start) =~= d);
    }
    Ok(acc)
}

/// Strip every leading `0x` occurrence, then parse the rest as a 64-bit
/// hex quantity.
pub fn parse_hex_quantity(s: &str) -> (r: Result<u64, ParseNumError>)
    ensures
        r is Ok <==> hex_num_wellformed(strip_hex_prefix(s@)) && hex_num_value(
            hex_num_digits(strip_hex_prefix(s@)),
        ) <= u64::MAX,
        r is Ok ==> r->Ok_0 == hex_num_value(hex_num_digits(strip_hex_prefix(s@))),
        r is Err ==> r == Err::<u64, ParseNumError>(
            if !hex_num_wellformed(strip_hex_prefix(s@)) {
                ParseNumError::Invalid
            } else {
                ParseNumError::Overflow
            },
        ),
{
    parse_hex_u64(strip_prefix_0x(s))
}

/// Relies on str::trim_start_matches with the literal pattern "0x":
/// it removes every occurrence of that prefix, repeatedly, and
/// returns the remaining tail of the string.
#[verifier::external_body]
fn strip_prefix_0x(s: &str) -> (r: &str)
    ensures
        r@ == strip_hex_prefix(s@),
{
    s.trim_start_matches("0x")
}

/// Relies on hex::decode: it succeeds exactly on strings of evenly many
/// hex digits (either case) and maps each digit pair to one byte, high
/// nibble first; any other input gives an error.
#[verifier::external_body]
fn hex_decode(s: &str) -> (r: Result<Vec<u8>, DecodeError>)
    ensures
        r == if valid_hex(s@) {
            Ok::<Vec<u8>, DecodeError>(r->Ok_0)
        } else {
            Err::<Vec<u8>, DecodeError>(DecodeError::InvalidHex)
        },
        valid_hex(s@) ==> r->Ok_0@ == bytes_of_hex(s@),
{
    match hex::decode(s) {
        Ok(v) => Ok(v),
        Err(_) => Err(DecodeError::InvalidHex),
    }
}

/// Relies on hex::encode: it returns two lowercase hex digits per input
/// byte, high nibble first.
#[verifier::external_body]
pub(crate) fn hex_encode(b: &[u8]) -> (r: String)
    ensures
        r@ == hex_chars_of(b@),
{
    hex::encode(b)
}

/// Strip every leading `0x` and decode the rest as hex.
pub fn decode_hex(s: &str) -> (r: Result<Vec<u8>, DecodeError>)
    ensures
        r is Ok <==> valid_hex(strip_hex_prefix(s@)),
        r is Ok ==> r->Ok_0@ == bytes_of_hex(strip_hex_prefix(s@)),
        r is Err ==> r == Err::<Vec<u8>, DecodeError>(DecodeError::InvalidHex),
{
    hex_decode(strip_prefix_0x(s))
}

/// Strip every leading `0x`, decode the rest as hex, and insist on an
/// exact byte length, as the protocol fixes one for each digest-like field.
pub fn decode_hex_fixed(s: &str, n: usize) -> (r: Result<Vec<u8>, DecodeError>)
    ensures
        r is Ok <==> valid_hex(strip_hex_prefix(s@)) && bytes_of_hex(strip_hex_prefix(s@)).len() == n,
        r is Ok ==> r->Ok_0@ == bytes_of_hex(strip_hex_prefix(s@)),
        r is Err ==> r == Err::<Vec<u8>, DecodeError>(fixed_decode_error(s@, n as nat)),
{
    let bytes = decode_hex(s)?;
    if bytes.len() == n {
        Ok(bytes)
    } else {
        Err(DecodeError::WrongLength)
    }
}

/// The error `decode_hex_fixed` reports: a malformed hex string wins over
/// a wrong decoded length.
pub open spec fn fixed_decode_error(s: Seq<char>, n: nat) -> DecodeError {
    if !valid_hex(strip_hex_prefix(s)) {
        DecodeError::InvalidHex
    } else {
        DecodeError::WrongLength
    }
}

} // verus!
