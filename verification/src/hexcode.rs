//! Hexadecimal text: the form in which ciphertexts and key hashes are kept.

use vstd::prelude::*;
use crate::errors::ErrorExecution;

verus! {

/// The error of the outside hex decoder.
#[verifier::external_type_specification]
#[verifier::external_body]
pub struct ExFromHexError(hex::FromHexError);

/// The sixteen digits that encoding writes, by value.
pub open spec fn hex_digits() -> Seq<char> {
    seq!['0', '1', '2', '3', '4', '5', '6', '7', '8', '9', 'a', 'b', 'c', 'd', 'e', 'f']
}

/// The value of a hexadecimal digit, upper or lower case; -1 for any other
/// character.
pub open spec fn digit_value(c: char) -> int {
    if '0' <= c <= '9' {
        c as int - '0' as int
    } else if 'a' <= c <= 'f' {
        c as int - 'a' as int + 10
    } else if 'A' <= c <= 'F' {
        c as int - 'A' as int + 10
    } else {
        -1
    }
}

/// The lower-case hexadecimal text of `bytes`: two digits per byte, the high
/// half first.
pub open spec fn hex_text(bytes: Seq<u8>) -> Seq<char> {
    Seq::new(
        2 * bytes.len(),
        |i: int|
            if i % 2 == 0 {
                hex_digits()[bytes[i / 2] as int / 16]
            } else {
                hex_digits()[bytes[i / 2] as int % 16]
            },
    )
}

/// Whether `text` is an even number of hexadecimal digits.
pub open spec fn is_hex_text(text: Seq<char>) -> bool {
    &&& text.len() % 2 == 0
    &&& forall|i: int| 0 <= i < text.len() ==> digit_value(#[trigger] text[i]) >= 0
}

/// The bytes that hexadecimal text stands for.
pub open spec fn hex_bytes(text: Seq<char>) -> Seq<u8> {
    Seq::new(
        text.len() / 2,
        |i: int| (16 * digit_value(text[2 * i]) + digit_value(text[2 * i + 1])) as u8,
    )
}

/// Calls `hex::encode`, which writes each byte as two lower-case digits
/// taken from the table `0123456789abcdef`, high half first.
#[verifier::external_body]
fn hex_encode(data: &[u8]) -> (text: String)
    ensures
        text@ == hex_text(data@),
{
    hex::encode(data)
}

/// Calls `hex::decode`, which fails on an odd number of bytes and on any
/// byte that is not a digit `0-9`, `a-f` or `A-F`, and otherwise joins each
/// pair of digit values into one byte, high half first.
#[verifier::external_body]
fn hex_decode(text: &str) -> (decoded: Result<Vec<u8>, hex::FromHexError>)
    ensures
        decoded is Ok <==> is_hex_text(text@),
        decoded matches Ok(bytes) ==> bytes@ == hex_bytes(text@),
{
    hex::decode(text)
}

/// Writes `data` as lower-case hexadecimal text.
pub fn encode(data: &[u8]) -> (text: String)
    ensures
        text@ == hex_text(data@),
{
    hex_encode(data)
}

/// Reads hexadecimal text back into bytes. Fails with
/// [`ErrorExecution::DecodeFailure`] exactly when the text is not an even
/// number of hexadecimal digits.
pub fn decode(text: &str) -> (decoded: Result<Vec<u8>, ErrorExecution>)
    ensures
        match decoded {
            Ok(bytes) => is_hex_text(text@) && bytes@ == hex_bytes(text@),
            Err(e) => !is_hex_text(text@) && e is DecodeFailure,
        },
{
    match hex_decode(text) {
        Ok(bytes) => Ok(bytes),
        Err(_) => Err(ErrorExecution::DecodeFailure),
    }
}

/// Each digit that encoding writes has the value of its place in the table.
pub proof fn lemma_digit_value_of_hex_digit(n: int)
    requires
        0 <= n < 16,
    ensures
        digit_value(hex_digits()[n]) == n,
{
}

/// Decoding inverts encoding: the text that [`encode`] writes is always
/// accepted by [`decode`], which gives the same bytes back.
pub proof fn lemma_decode_inverts_encode(bytes: Seq<u8>)
    ensures
        is_hex_text(hex_text(bytes)),
        hex_bytes(hex_text(bytes)) == bytes,
{
    let text = hex_text(bytes);
    assert forall|i: int| 0 <= i < text.len() implies digit_value(#[trigger] text[i]) >= 0 by {
        let b = bytes[i / 2] as int;
        lemma_digit_value_of_hex_digit(b / 16);
        lemma_digit_value_of_hex_digit(b % 16);
    }
    assert forall|i: int| 0 <= i < bytes.len() implies hex_bytes(text)[i] == bytes[i] by {
        let b = bytes[i] as int;
        lemma_digit_value_of_hex_digit(b / 16);
        lemma_digit_value_of_hex_digit(b % 16);
        assert((2 * i) / 2 == i);
        assert((2 * i + 1) / 2 == i);
        assert(text[2 * i] == hex_digits()[b / 16]);
        assert(text[2 * i + 1] == hex_digits()[b % 16]);
    }
    assert(hex_bytes(text).len() == bytes.len());
    assert(hex_bytes(text) =~= bytes);
}

} // verus!
