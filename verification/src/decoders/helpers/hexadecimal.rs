//! Hexadecimal text: decoding it into bytes, and writing bytes as upper case
//! digits.

use vstd::prelude::*;
use vstd::utf8::is_ascii_chars;

use crate::decoders::helpers::strings::push_char;
use crate::error_handling::deserialization_error::HexDecodeError;

verus! {

/// The value of a hexadecimal digit byte: `0-9`, `a-f` or `A-F`.
pub open spec fn hex_digit_value(b: u8) -> Option<u8> {
    if 0x30 <= b && b <= 0x39 {
        Some((b - 0x30) as u8)
    } else if 0x61 <= b && b <= 0x66 {
        Some((b - 0x61 + 10) as u8)
    } else if 0x41 <= b && b <= 0x46 {
        Some((b - 0x41 + 10) as u8)
    } else {
        None
    }
}

/// Decoding of an even number of hexadecimal digits, read two by two from
/// the start; `offset` is the position of the first digit in the whole text.
/// The first byte that is not a digit makes the error.
pub open spec fn hex_decode_pairs(digits: Seq<u8>, offset: nat) -> Result<Seq<u8>, HexDecodeError>
    decreases digits.len(),
{
    if digits.len() < 2 {
        Ok(Seq::<u8>::empty())
    } else {
        match (hex_digit_value(digits[0]), hex_digit_value(digits[1])) {
            (None, _) => Err(HexDecodeError::InvalidHexCharacter { c: digits[0] as char, index: offset as usize }),
            (Some(_), None) => Err(
                HexDecodeError::InvalidHexCharacter { c: digits[1] as char, index: (offset + 1) as usize },
            ),
            (Some(high), Some(low)) => match hex_decode_pairs(
                digits.subrange(2, digits.len() as int),
                offset + 2,
            ) {
                Ok(rest) => Ok(seq![(high * 16 + low) as u8] + rest),
                Err(e) => Err(e),
            },
        }
    }
}

/// Decoding of a hexadecimal text given as its bytes: an odd number of bytes
/// is refused, otherwise the digits are read in pairs, high digit first.
pub open spec fn hex_decoded(text: Seq<u8>) -> Result<Seq<u8>, HexDecodeError> {
    if text.len() % 2 != 0 {
        Err(HexDecodeError::OddLength)
    } else {
        hex_decode_pairs(text, 0)
    }
}

/// `hex::decode` on the bytes of a text. Its source (hex 0.4.3,
/// `FromHex for Vec<u8>`) refuses an odd length first, then reads the pairs
/// in order, each high digit before its low digit, and reports the first byte
/// that is not `0-9`, `a-f` or `A-F`, as a `char`, with its index; each pair
/// gives the byte `high << 4 | low`. This is `hex_decoded`.
#[verifier::external_body]
pub(crate) fn hex_decode(data: &[u8]) -> (res: Result<Vec<u8>, HexDecodeError>)
    ensures
        match hex_decoded(data@) {
            Ok(bytes) => res matches Ok(v) && v@ == bytes,
            Err(e) => res == Err::<Vec<u8>, HexDecodeError>(e),
        },
{
    match ::hex::decode(data) {
        Ok(bytes) => Ok(bytes),
        Err(::hex::FromHexError::InvalidHexCharacter { c, index }) => Err(
            HexDecodeError::InvalidHexCharacter { c, index },
        ),
        Err(::hex::FromHexError::OddLength) => Err(HexDecodeError::OddLength),
        Err(::hex::FromHexError::InvalidStringLength) => Err(HexDecodeError::InvalidStringLength),
    }
}

/// Upper case hexadecimal digit of a value below 16.
pub open spec fn hex_digit_upper(d: nat) -> char {
    if d < 10 {
        (('0' as nat) + d) as char
    } else {
        (('A' as nat) + d - 10) as char
    }
}

/// Upper case hexadecimal text of bytes, two digits per byte.
pub open spec fn hex_text_upper(bytes: Seq<u8>) -> Seq<char>
    decreases bytes.len(),
{
    if bytes.len() == 0 {
        Seq::<char>::empty()
    } else {
        hex_text_upper(bytes.drop_last()) + seq![
            hex_digit_upper((bytes.last() / 16) as nat),
            hex_digit_upper((bytes.last() % 16) as nat),
        ]
    }
}

fn hex_digit_char(d: u8) -> (c: char)
    requires
        d < 16,
    ensures
        c == hex_digit_upper(d as nat),
{
    match d {
        0 => '0',
        1 => '1',
        2 => '2',
        3 => '3',
        4 => '4',
        5 => '5',
        6 => '6',
        7 => '7',
        8 => '8',
        9 => '9',
        10 => 'A',
        11 => 'B',
        12 => 'C',
        13 => 'D',
        14 => 'E',
        _ => 'F',
    }
}

/// The upper case hexadecimal text of bytes, two digits per byte.
pub fn hex_string_upper(bytes: &[u8]) -> (res: String)
    ensures
        res@ == hex_text_upper(bytes@),
{
    let mut res = String::new();
    let mut i: usize = 0;
    while i < bytes.len()
        invariant
            i <= bytes@.len(),
            res@ == hex_text_upper(bytes@.subrange(0, i as int)),
        decreases bytes@.len() - i,
    {
        let b = bytes[i];
        push_char(&mut res, hex_digit_char(b / 16));
        push_char(&mut res, hex_digit_char(b % 16));
        assert(bytes@.subrange(0, i + 1).drop_last() =~= bytes@.subrange(0, i as int));
        i = i + 1;
    }
    assert(bytes@.subrange(0, bytes@.len() as int) =~= bytes@);
    res
}

/// The bytes of a text made of ASCII characters only, one per character.
pub open spec fn ascii_bytes(text: Seq<char>) -> Seq<u8> {
    text.map_values(|c: char| c as u8)
}

proof fn lemma_hex_digit_upper_value(d: nat)
    requires
        d < 16,
    ensures
        hex_digit_upper(d) as u8 as nat == hex_digit_upper(d) as nat,
        hex_digit_upper(d) as nat <= 0x7f,
        hex_digit_value(hex_digit_upper(d) as u8) == Some(d as u8),
{
}

proof fn lemma_hex_text_upper_len(bytes: Seq<u8>)
    ensures
        hex_text_upper(bytes).len() == 2 * bytes.len(),
    decreases bytes.len(),
{
    if bytes.len() > 0 {
        lemma_hex_text_upper_len(bytes.drop_last());
    }
}

/// The text of bytes starts with the two digits of the first byte.
proof fn lemma_hex_text_upper_first(bytes: Seq<u8>)
    requires
        bytes.len() > 0,
    ensures
        hex_text_upper(bytes) == seq![
            hex_digit_upper((bytes[0] / 16) as nat),
            hex_digit_upper((bytes[0] % 16) as nat),
        ] + hex_text_upper(bytes.drop_first()),
    decreases bytes.len(),
{
    if bytes.len() == 1 {
        assert(bytes.drop_last() =~= Seq::<u8>::empty());
        assert(bytes.drop_first() =~= Seq::<u8>::empty());
        assert(hex_text_upper(bytes) =~= seq![
            hex_digit_upper((bytes[0] / 16) as nat),
            hex_digit_upper((bytes[0] % 16) as nat),
        ] + hex_text_upper(bytes.drop_first()));
    } else {
        let init = bytes.drop_last();
        lemma_hex_text_upper_first(init);
        assert(init.drop_first() =~= bytes.drop_first().drop_last());
        assert(bytes.drop_first().last() == bytes.last());
        assert(hex_text_upper(bytes) =~= seq![
            hex_digit_upper((bytes[0] / 16) as nat),
            hex_digit_upper((bytes[0] % 16) as nat),
        ] + hex_text_upper(bytes.drop_first()));
    }
}

/// Every character of the upper case text of bytes is an ASCII digit or
/// letter.
pub proof fn lemma_hex_text_upper_is_ascii(bytes: Seq<u8>)
    ensures
        is_ascii_chars(hex_text_upper(bytes)),
    decreases bytes.len(),
{
    if bytes.len() > 0 {
        lemma_hex_text_upper_is_ascii(bytes.drop_last());
        lemma_hex_digit_upper_value((bytes.last() / 16) as nat);
        lemma_hex_digit_upper_value((bytes.last() % 16) as nat);
        let text = hex_text_upper(bytes);
        let init = hex_text_upper(bytes.drop_last());
        assert forall|i: int| 0 <= i < text.len() implies '\0' <= #[trigger] text[i] <= '\u{7f}' by {
            if i < init.len() {
                assert(text[i] == init[i]);
            }
        }
    }
}

proof fn lemma_hex_decode_pairs_upper(bytes: Seq<u8>, offset: nat)
    ensures
        hex_decode_pairs(ascii_bytes(hex_text_upper(bytes)), offset) == Ok::<Seq<u8>, HexDecodeError>(bytes),
    decreases bytes.len(),
{
    let digits = ascii_bytes(hex_text_upper(bytes));
    lemma_hex_text_upper_len(bytes);
    if bytes.len() == 0 {
        assert(bytes =~= Seq::<u8>::empty());
    } else {
        lemma_hex_text_upper_first(bytes);
        let b = bytes[0];
        let rest = bytes.drop_first();
        lemma_hex_digit_upper_value((b / 16) as nat);
        lemma_hex_digit_upper_value((b % 16) as nat);
        lemma_hex_decode_pairs_upper(rest, offset + 2);
        assert(digits.subrange(2, digits.len() as int) =~= ascii_bytes(hex_text_upper(rest)));
        assert(digits[0] == hex_digit_upper((b / 16) as nat) as u8);
        assert(digits[1] == hex_digit_upper((b % 16) as nat) as u8);
        assert(((b / 16) as u8 * 16 + (b % 16) as u8) as u8 == b) by (bit_vector);
        assert(seq![b] + rest =~= bytes);
    }
}

/// Decoding the upper case hexadecimal text of any bytes gives those bytes
/// back.
pub proof fn lemma_hex_text_round_trip(bytes: Seq<u8>)
    ensures
        hex_decoded(ascii_bytes(hex_text_upper(bytes))) == Ok::<Seq<u8>, HexDecodeError>(bytes),
{
    lemma_hex_text_upper_len(bytes);
    lemma_hex_decode_pairs_upper(bytes, 0);
}

} // verus!
