//! Password hashes, stored as the base64 form of a SHA-256 digest.

use vstd::prelude::*;
use vstd::string::StringSliceAdditionalSpecFns;
use sha2::Digest;
use crate::encoding::{b64_encode, b64_of};

verus! {

/// What `sha2` computes for `data`: a 32-byte digest, a function of the
/// input bytes alone.
pub uninterp spec fn sha256_of(data: Seq<u8>) -> Seq<u8>;

/// Relies on `sha2::Sha256::digest`: the digest is a function of the input
/// bytes alone and is 32 bytes long.
#[verifier::external_body]
pub(crate) fn sha256_digest(data: &[u8]) -> (r: Vec<u8>)
    ensures
        r@ == sha256_of(data@),
        r@.len() == 32,
{
    sha2::Sha256::digest(data).to_vec()
}

/// The textual form a hash of `data` is stored under.
pub open spec fn encoded_hash_of(data: Seq<u8>) -> Seq<char> {
    b64_of(sha256_of(data))
}

/// A password hash in its stored textual form.
#[derive(Debug)]
pub struct EncodedHash {
    inner: String,
}

impl View for EncodedHash {
    type V = Seq<char>;

    closed spec fn view(&self) -> Seq<char> {
        self.inner@
    }
}

impl EncodedHash {
    /// Wraps an already-encoded hash string, as read back from the store.
    pub fn from_raw(st: String) -> (r: EncodedHash)
        ensures
            r@ == st@,
    {
        EncodedHash { inner: st }
    }

    /// Hashes `data` and encodes the digest.
    pub fn hash(data: &str) -> (r: EncodedHash)
        ensures
            r@ == encoded_hash_of(data.spec_bytes()),
    {
        let digest = sha256_digest(data.as_bytes());
        EncodedHash { inner: b64_encode(digest.as_slice()) }
    }

    /// An explicit copy, equal to the original in value.
    pub fn duplicate(&self) -> (r: EncodedHash)
        ensures
            r@ == self@,
    {
        EncodedHash { inner: self.inner.clone() }
    }

    /// The stored textual form.
    pub fn as_text(&self) -> (r: &String)
        ensures
            r@ == self@,
    {
        &self.inner
    }

    /// True when `plain`, once hashed, matches this stored hash.
    pub fn matches_plain(&self, plain: &str) -> (r: bool)
        ensures
            r <==> self@ == encoded_hash_of(plain.spec_bytes()),
    {
        let other = Self::hash(plain);
        crate::strutil::str_eq(self.inner.as_str(), other.inner.as_str())
    }
}

} // verus!
