//! Text encodings of binary keyfile fields: hexadecimal and base64.

use crate::error::optional;
use vstd::prelude::*;

verus! {

/// The sixteen lowercase hexadecimal digits, in order of value.
pub open spec fn hex_alphabet() -> Seq<char> {
    seq!['0', '1', '2', '3', '4', '5', '6', '7', '8', '9', 'a', 'b', 'c', 'd', 'e', 'f']
}

/// The lowercase hexadecimal text of `bytes`: two digits per byte, the high
/// half of each byte first.
pub open spec fn hex_text(bytes: Seq<u8>) -> Seq<char> {
    Seq::new(
        2 * bytes.len(),
        |i: int|
            hex_alphabet()[if i % 2 == 0 {
                bytes[i / 2] as int / 16
            } else {
                bytes[i / 2] as int % 16
            }],
    )
}

/// The value of a hexadecimal digit of either case, if `c` is one.
pub open spec fn hex_value(c: char) -> Option<int> {
    let code: int = c as u32 as int;
    if 0x30 <= code <= 0x39 {
        Some(code - 0x30)
    } else if 0x61 <= code <= 0x66 {
        Some(code - 0x61 + 10)
    } else if 0x41 <= code <= 0x46 {
        Some(code - 0x41 + 10)
    } else {
        None
    }
}

/// Whether `text` is an even number of hexadecimal digits.
pub open spec fn is_hex_text(text: Seq<char>) -> bool {
    &&& text.len() % 2 == 0
    &&& forall|i: int| 0 <= i < text.len() ==> (#[trigger] hex_value(text[i])) is Some
}

/// The bytes that `text` spells in hexadecimal, if it is hexadecimal text.
pub open spec fn hex_bytes(text: Seq<char>) -> Option<Seq<u8>> {
    if is_hex_text(text) {
        Some(
            Seq::new(
                text.len() / 2,
                |i: int| (16 * hex_value(text[2 * i])->0 + hex_value(text[2 * i + 1])->0) as u8,
            ),
        )
    } else {
        None
    }
}

/// Every digit of the alphabet has its position as its value.
pub proof fn lemma_hex_digit_value(v: int)
    requires
        0 <= v < 16,
    ensures
        hex_value(hex_alphabet()[v]) == Some(v),
{
}

/// Decoding inverts encoding: the hexadecimal text of any bytes spells
/// exactly those bytes.
pub proof fn lemma_hex_roundtrip(bytes: Seq<u8>)
    ensures
        hex_bytes(hex_text(bytes)) == Some(bytes),
{
    let text = hex_text(bytes);
    assert forall|i: int| 0 <= i < text.len() implies (#[trigger] hex_value(text[i])) is Some by {
        let b: int = bytes[i / 2] as int;
        lemma_hex_digit_value(b / 16);
        lemma_hex_digit_value(b % 16);
    }
    assert(is_hex_text(text));
    let back = hex_bytes(text)->0;
    assert forall|i: int| 0 <= i < bytes.len() implies back[i] == bytes[i] by {
        let b: int = bytes[i] as int;
        lemma_hex_digit_value(b / 16);
        lemma_hex_digit_value(b % 16);
        assert((2 * i) / 2 == i && (2 * i) % 2 == 0);
        assert((2 * i + 1) / 2 == i && (2 * i + 1) % 2 == 1);
        assert(text[2 * i] == hex_alphabet()[b / 16]);
        assert(text[2 * i + 1] == hex_alphabet()[b % 16]);
    }
    assert(back =~= bytes);
}

/// `hex::FromHexError`, carried opaquely from `hex::decode` to its caller.
#[verifier::external_type_specification]
#[verifier::external_body]
pub struct ExFromHexError(hex::FromHexError);

/// `hex::encode`: the text holds two lowercase digits for each byte, high
/// half first.
#[verifier::external_body]
pub(crate) fn hex_encode(data: &[u8]) -> (text: String)
    ensures
        text@ == hex_text(data@),
{
    hex::encode(data)
}

/// `hex::decode`: succeeds exactly on an even number of hexadecimal digits
/// of either case, and then returns the byte each pair of digits spells.
/// The crate reads the text byte by byte; a character outside ASCII is
/// made of bytes that are no digits, so it is refused as here.
#[verifier::external_body]
pub(crate) fn hex_decode(text: &str) -> (r: Result<Vec<u8>, hex::FromHexError>)
    ensures
        r matches Ok(bytes) ==> hex_bytes(text@) == Some(bytes@),
        r is Err ==> hex_bytes(text@) is None,
{
    hex::decode(text)
}

/// Writes `data` as lowercase hexadecimal text.
pub fn to_hex(data: &[u8]) -> (text: String)
    ensures
        text@ == hex_text(data@),
        hex_bytes(text@) == Some(data@),
{
    proof {
        lemma_hex_roundtrip(data@);
    }
    hex_encode(data)
}

/// Reads hexadecimal text of either case back into bytes. Fails with
/// `None` exactly when `text` is not an even number of hexadecimal digits.
pub fn from_hex(text: &str) -> (r: Option<Vec<u8>>)
    ensures
        optional(r) == hex_bytes(text@),
{
    match hex_decode(text) {
        Ok(bytes) => Some(bytes),
        Err(_) => None,
    }
}

/// The text that `base64::encode` writes for `bytes`: standard alphabet,
/// padded.
pub uninterp spec fn base64_text(bytes: Seq<u8>) -> Seq<char>;

/// The bytes that `base64::decode` reads from `text`, where it accepts it.
pub uninterp spec fn base64_bytes(text: Seq<char>) -> Option<Seq<u8>>;

/// The characters of base64 text: the letters, the digits, `+`, `/`, and
/// the pad `=`.
pub open spec fn is_base64_char(c: char) -> bool {
    let code: int = c as u32 as int;
    ||| 0x41 <= code <= 0x5A
    ||| 0x61 <= code <= 0x7A
    ||| 0x30 <= code <= 0x39
    ||| code == 0x2B
    ||| code == 0x2F
    ||| code == 0x3D
}

/// Whether `text` holds characters of base64 text only.
pub open spec fn is_base64_text(text: Seq<char>) -> bool {
    forall|i: int| 0 <= i < text.len() ==> is_base64_char(#[trigger] text[i])
}

/// The length of the padded base64 text of `count` bytes: four characters
/// for every started group of three bytes.
pub open spec fn base64_len(count: nat) -> nat {
    4 * ((count + 2) / 3)
}

/// `base64::DecodeError`, carried opaquely from `base64::decode` to its
/// caller.
#[verifier::external_type_specification]
#[verifier::external_body]
pub struct ExDecodeError(base64::DecodeError);

/// `base64::encode`: the text is a function of the bytes alone, holds four
/// characters of the standard alphabet or the pad for every started group
/// of three bytes, and `base64::decode` reads the same bytes back from it.
#[verifier::external_body]
#[allow(deprecated)]
pub(crate) fn base64_encode(data: &[u8]) -> (text: String)
    ensures
        text@ == base64_text(data@),
        text@.len() == base64_len(data@.len()),
        is_base64_text(text@),
        base64_bytes(text@) == Some(data@),
{
    base64::encode(data)
}

/// `base64::decode`: whether it accepts `text`, and the bytes it then
/// returns, are a function of the text alone.
#[verifier::external_body]
#[allow(deprecated)]
pub(crate) fn base64_decode(text: &str) -> (r: Result<Vec<u8>, base64::DecodeError>)
    ensures
        r matches Ok(bytes) ==> base64_bytes(text@) == Some(bytes@),
        r is Err ==> base64_bytes(text@) is None,
{
    base64::decode(text)
}

} // verus!
