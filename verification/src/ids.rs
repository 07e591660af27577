//! Identifiers for jobs and sessions.
//!
//! An identifier is held as the 128-bit value of a version-4 UUID, so the
//! verified logic can compare and store it as a plain integer while the
//! generation and the textual form stay with the `uuid` crate.

use vstd::prelude::*;

verus! {

/// A 128-bit identifier (the value of a UUID).
#[derive(Clone, Copy, PartialEq, Eq, Structural, Debug, Hash)]
pub struct Uid(pub u128);

/// What `uuid` prints for the 128-bit value `v`: its hyphenated textual form.
pub uninterp spec fn uid_text(v: u128) -> Seq<char>;

/// What `uuid` reads back from the ASCII bytes `s`, if they form a UUID.
pub uninterp spec fn uid_parsed(s: Seq<u8>) -> Option<u128>;

/// Relies on `uuid::Uuid::new_v4`: a random identifier; nothing is promised
/// of its value.
#[verifier::external_body]
pub(crate) fn fresh_uid() -> (r: Uid) {
    Uid(uuid::Uuid::new_v4().as_u128())
}

/// Relies on `uuid::Uuid::to_string` via `format!`: the hyphenated form,
/// 36 characters, a function of the value alone.
#[verifier::external_body]
pub(crate) fn uid_to_string(u: &Uid) -> (r: String)
    ensures
        r@ == uid_text(u.0),
        r@.len() == 36,
{
    format!("{}", uuid::Uuid::from_u128(u.0))
}

/// Relies on `uuid::Uuid::try_parse_ascii`: accepts a textual UUID and
/// returns its value, a function of the input bytes alone.
#[verifier::external_body]
pub(crate) fn uid_from_ascii(s: &[u8]) -> (r: Option<Uid>)
    ensures
        r matches Some(u) ==> uid_parsed(s@) == Some(u.0),
        r is None ==> uid_parsed(s@) is None,
{
    match uuid::Uuid::try_parse_ascii(s) {
        Ok(u) => Some(Uid(u.as_u128())),
        Err(_) => None,
    }
}

} // verus!
