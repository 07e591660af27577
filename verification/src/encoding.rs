//! Base64 transport encoding, as used for file contents, extended
//! attributes and session tokens.

use vstd::prelude::*;
use base64::prelude::BASE64_STANDARD;
use base64::prelude::Engine;

verus! {

/// What `base64` produces for `data` under the standard padded alphabet.
pub uninterp spec fn b64_of(data: Seq<u8>) -> Seq<char>;

/// What `base64` reads back from `text`, if `text` is valid standard
/// base64, else `None`.
pub uninterp spec fn b64_dec_of(text: Seq<char>) -> Option<Seq<u8>>;

/// Relies on `base64::engine::Engine::encode` with the standard padded
/// engine: the encoding is a function of the input bytes alone, four
/// output characters for every three input bytes (rounded up by padding).
#[verifier::external_body]
pub(crate) fn b64_encode(data: &[u8]) -> (r: String)
    ensures
        r@ == b64_of(data@),
        r@.len() == 4 * ((data@.len() + 2) / 3),
{
    BASE64_STANDARD.encode(data)
}

/// Relies on `base64::engine::Engine::decode` with the standard padded
/// engine: the result is a function of the input text alone.
#[verifier::external_body]
pub(crate) fn b64_decode(text: &str) -> (r: Option<Vec<u8>>)
    ensures
        r matches Some(v) ==> b64_dec_of(text@) == Some(v@),
        r is None ==> b64_dec_of(text@) is None,
{
    BASE64_STANDARD.decode(text).ok()
}

} // verus!
