//! Text encodings of byte strings: base58 for addresses, base64 for
//! messages to sign, lowercase hexadecimal for signatures.

use base64::Engine;
use vstd::prelude::*;

verus! {

/// The base58 text of `bytes` in the Bitcoin alphabet.
pub uninterp spec fn base58_text(bytes: Seq<u8>) -> Seq<char>;

/// The padded base64 text of `bytes` in the standard alphabet.
pub uninterp spec fn base64_text(bytes: Seq<u8>) -> Seq<char>;

/// The bytes that `text` stands for in padded standard base64, if it is
/// canonical base64 at all.
pub uninterp spec fn base64_bytes(text: Seq<char>) -> Option<Seq<u8>>;

/// The lowercase hexadecimal digit of a value below sixteen.
pub open spec fn hex_digit(nibble: int) -> char {
    seq!['0', '1', '2', '3', '4', '5', '6', '7', '8', '9', 'a', 'b', 'c', 'd', 'e', 'f'][nibble]
}

/// The lowercase hexadecimal text of `bytes`: two digits for each byte, the
/// high half first.
pub open spec fn hex_text(bytes: Seq<u8>) -> Seq<char> {
    Seq::new(
        2 * bytes.len(),
        |i: int|
            if i % 2 == 0 {
                hex_digit(bytes[i / 2] as int / 16)
            } else {
                hex_digit(bytes[i / 2] as int % 16)
            },
    )
}

/// What `base64::DecodeError` tells of a text that is not base64.
#[verifier::external_type_specification]
#[verifier::external_body]
pub struct ExDecodeError(base64::DecodeError);

/// `bs58::encode(..).into_string()`: the base58 text of the bytes, which
/// depends on the bytes alone.
#[verifier::external_body]
pub(crate) fn base58_encode(bytes: &[u8]) -> (text: String)
    ensures
        text@ == base58_text(bytes@),
{
    bs58::encode(bytes).into_string()
}

/// `STANDARD.encode`: the base64 text of the bytes, which depends on the
/// bytes alone and which `STANDARD.decode` turns back into them.
#[verifier::external_body]
pub(crate) fn base64_encode(bytes: &[u8]) -> (text: String)
    ensures
        text@ == base64_text(bytes@),
        base64_bytes(text@) == Some(bytes@),
{
    base64::engine::general_purpose::STANDARD.encode(bytes)
}

/// `STANDARD.decode`: the bytes that the text stands for, or the reason why
/// it stands for none; which of the two depends on the text alone.
#[verifier::external_body]
pub(crate) fn base64_decode(text: &str) -> (decoded: Result<Vec<u8>, base64::DecodeError>)
    ensures
        match decoded {
            Ok(bytes) => base64_bytes(text@) == Some(bytes@),
            Err(_) => base64_bytes(text@) is None,
        },
{
    base64::engine::general_purpose::STANDARD.decode(text)
}

/// `hex::encode`: two lowercase hexadecimal digits for each byte.
#[verifier::external_body]
pub(crate) fn hex_encode(bytes: &[u8]) -> (text: String)
    ensures
        text@ == hex_text(bytes@),
{
    hex::encode(bytes)
}

} // verus!
