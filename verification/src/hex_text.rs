//! Bytes written as hexadecimal text.

use vstd::prelude::*;
use vstd::utf8::encode_utf8;

verus! {

/// The lower-case hexadecimal digit of a value below sixteen.
pub open spec fn hex_digit(v: nat) -> char {
    if v < 10 {
        (48 + v) as char
    } else {
        (87 + v) as char
    }
}

/// Two hexadecimal digits for each byte, the high half first.
pub open spec fn hex_of(data: Seq<u8>) -> Seq<char> {
    Seq::new(
        2 * data.len(),
        |i: int|
            if i % 2 == 0 {
                hex_digit((data[i / 2] / 16) as nat)
            } else {
                hex_digit((data[i / 2] % 16) as nat)
            },
    )
}

/// The value of a hexadecimal digit of either case.
pub open spec fn hex_value(c: u8) -> Option<nat> {
    if 48 <= c <= 57 {
        Some((c - 48) as nat)
    } else if 97 <= c <= 102 {
        Some((c - 87) as nat)
    } else if 65 <= c <= 70 {
        Some((c - 55) as nat)
    } else {
        None
    }
}

/// Whether text bytes are hexadecimal digits, in pairs.
pub open spec fn is_hex(text: Seq<u8>) -> bool {
    &&& text.len() % 2 == 0
    &&& forall|i: int| 0 <= i < text.len() ==> hex_value(#[trigger] text[i]) is Some
}

/// The bytes that pairs of hexadecimal digits stand for.
pub open spec fn unhex(text: Seq<u8>) -> Seq<u8> {
    Seq::new(
        (text.len() / 2) as nat,
        |i: int| (16 * hex_value(text[2 * i])->0 + hex_value(text[2 * i + 1])->0) as u8,
    )
}

/// The error of `hex::decode`.
#[verifier::external_type_specification]
#[verifier::external_body]
pub struct ExFromHexError(hex::FromHexError);

/// `hex::encode`: two lower-case digits for each byte, the high half first.
/// What no allocation can hold would panic.
#[verifier::external_body]
pub(crate) fn encode(data: &[u8]) -> (r: String)
    requires
        2 * data@.len() <= isize::MAX,
    ensures
        r@ == hex_of(data@),
{
    hex::encode(data)
}

/// `hex::decode`: succeeds exactly on an even number of digits, of either
/// case, and gives the bytes that they stand for.
#[verifier::external_body]
pub(crate) fn decode(text: &str) -> (r: Result<Vec<u8>, hex::FromHexError>)
    ensures
        r is Ok <==> is_hex(encode_utf8(text@)),
        r matches Ok(data) ==> data@ == unhex(encode_utf8(text@)),
{
    hex::decode(text)
}

/// What is written as hexadecimal text is read back as it was.
pub proof fn lemma_hex_round_trip(data: Seq<u8>)
    ensures
        is_hex(encode_utf8(hex_of(data))),
        unhex(encode_utf8(hex_of(data))) == data,
        (hex_of(data).len() == 0) == (data.len() == 0),
{
    let chars = hex_of(data);
    assert forall|i: int| 0 <= i < chars.len() implies (#[trigger] chars[i] as u32) < 128 by {
        let v = if i % 2 == 0 {
            (data[i / 2] / 16) as nat
        } else {
            (data[i / 2] % 16) as nat
        };
        assert(v < 16);
    }
    vstd::utf8::is_ascii_chars_encode_utf8(chars);
    let bytes = encode_utf8(chars);
    assert(bytes =~= Seq::new(chars.len(), |i: int| chars[i] as u8));
    assert forall|i: int| 0 <= i < bytes.len() implies hex_value(#[trigger] bytes[i]) == Some(
        (if i % 2 == 0 {
            data[i / 2] / 16
        } else {
            data[i / 2] % 16
        }) as nat,
    ) by {}
    assert forall|i: int| 0 <= i < data.len() implies #[trigger] unhex(bytes)[i] == data[i] by {
        assert(hex_value(bytes[2 * i]) == Some((data[(2 * i) / 2] / 16) as nat));
        assert(hex_value(bytes[2 * i + 1]) == Some((data[(2 * i + 1) / 2] % 16) as nat));
    }
    assert(unhex(bytes) =~= data);
}

} // verus!
