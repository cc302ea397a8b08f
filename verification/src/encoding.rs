//! Base64 and UTF-8 conversions, done by `base64` and `std`.

use vstd::prelude::*;
use vstd::utf8::{decode_utf8, valid_utf8};

verus! {

/// `base64::DecodeError`, carried from a call to where it is mapped.
#[verifier::external_type_specification]
#[verifier::external_body]
pub struct ExDecodeError(base64::DecodeError);

/// What `base64::encode` returns for a byte string: its base64 text in the
/// standard alphabet, padded with `=`.
pub uninterp spec fn base64_text(bytes: Seq<u8>) -> Seq<char>;

/// What `base64::decode` returns for a text given as bytes: `Some` of the
/// bytes it stands for, `None` where the text is no standard base64.
pub uninterp spec fn base64_bytes(text: Seq<u8>) -> Option<Seq<u8>>;

/// Length of the padded base64 text of `n` bytes: four characters for every
/// three bytes, a last partial group counted whole.
pub open spec fn base64_len(n: nat) -> nat {
    4 * ((n + 2) / 3)
}

/// Calls `base64::encode`. The text is a function of the bytes; its length is
/// what `base64::encode_config` allocates for the standard, padded
/// configuration and then fills completely. The `requires` keeps that length
/// computation from overflowing, where the call would panic.
#[verifier::external_body]
pub(crate) fn base64_encode(bytes: &[u8]) -> (text: String)
    requires
        base64_len(bytes@.len()) <= usize::MAX,
    ensures
        text@ == base64_text(bytes@),
        text@.len() == base64_len(bytes@.len()),
{
    base64::encode(bytes)
}

/// Calls `base64::decode`. Whether it succeeds and what it returns are a
/// function of the text. The `requires` keeps its chunk count, which adds 7
/// to the length, from overflowing, where the call would panic.
#[verifier::external_body]
pub(crate) fn base64_decode(text: &[u8]) -> (outcome: Result<Vec<u8>, base64::DecodeError>)
    requires
        text@.len() + 7 <= usize::MAX,
    ensures
        match outcome {
            Ok(bytes) => base64_bytes(text@) == Some(bytes@),
            Err(_) => base64_bytes(text@) is None,
        },
{
    base64::decode(text)
}

/// Calls `String::from_utf8`, which succeeds exactly on valid UTF-8 and then
/// returns the string that those bytes encode.
#[verifier::external_body]
pub(crate) fn string_from_utf8(bytes: Vec<u8>) -> (text: Option<String>)
    ensures
        match text {
            Some(s) => valid_utf8(bytes@) && s@ == decode_utf8(bytes@),
            None => !valid_utf8(bytes@),
        },
{
    match String::from_utf8(bytes) {
        Ok(s) => Some(s),
        Err(_) => None,
    }
}

} // verus!
