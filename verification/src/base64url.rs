//! Padding-free URL-safe base64 text, used by the metadata document to hold
//! the KDF salt and the wrapped data-encryption key.

use vstd::prelude::*;

verus! {

/// The text that `base64_url::encode` returns on the given bytes.
pub uninterp spec fn b64_of(bytes: Seq<u8>) -> Seq<char>;

/// The bytes that `base64_url::decode` returns on the given text, `None`
/// where it rejects the text.
pub uninterp spec fn b64_decoded(text: Seq<char>) -> Option<Seq<u8>>;

/// True of every character of the URL-safe base64 alphabet without padding:
/// letters, digits, `-` and `_`.
pub open spec fn is_base64url_char(c: char) -> bool {
    ||| 'A' <= c <= 'Z'
    ||| 'a' <= c <= 'z'
    ||| '0' <= c <= '9'
    ||| c == '-'
    ||| c == '_'
}

/// Relies on `base64_url::encode`: the padding-free URL-safe base64 text of
/// the input, drawn from the URL-safe alphabet, which `base64_url::decode`
/// decodes back to exactly the input.
#[verifier::external_body]
pub(crate) fn b64_encode(bytes: &[u8]) -> (text: String)
    ensures
        text@ == b64_of(bytes@),
        b64_decoded(text@) == Some(bytes@),
        forall|i: int| 0 <= i < text@.len() ==> is_base64url_char(#[trigger] text@[i]),
{
    base64_url::encode(bytes)
}

/// Relies on `base64_url::decode`: accepts or rejects deterministically, and
/// on acceptance returns the bytes the text encodes.
#[verifier::external_body]
pub(crate) fn b64_decode(text: &str) -> (r: Result<Vec<u8>, ()>)
    ensures
        match r {
            Ok(bytes) => b64_decoded(text@) == Some(bytes@),
            Err(()) => b64_decoded(text@) is None,
        },
{
    match base64_url::decode(text) {
        Ok(bytes) => Ok(bytes),
        Err(_) => Err(()),
    }
}

} // verus!
