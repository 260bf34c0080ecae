//! SHA-256 of a byte stream, by the `sha2` crate.

use crate::text::{hex_lower, hex_string};
use vstd::prelude::*;

verus! {

/// A running SHA-256 over the chunks of one download: the streaming hasher
/// `sha2::Sha256`, which Verus cannot look into.
#[verifier::external_body]
pub struct ImageHasher {
    hasher: sha2::Sha256,
}

/// The bytes that a hasher has taken in so far, in order.
pub uninterp spec fn sha256_absorbed(hasher: ImageHasher) -> Seq<u8>;

/// The SHA-256 digest of a byte string.
pub uninterp spec fn sha256_digest(data: Seq<u8>) -> Seq<u8>;

/// Calls `Sha256::new` of `sha2`: a hasher that has taken nothing in.
#[verifier::external_body]
pub(crate) fn sha256_new() -> (hasher: ImageHasher)
    ensures
        sha256_absorbed(hasher) == Seq::<u8>::empty(),
{
    ImageHasher { hasher: sha2::Digest::new() }
}

/// Calls `Digest::update` of `sha2`: the hasher takes `data` in after what
/// it has already.
#[verifier::external_body]
pub(crate) fn sha256_update(hasher: &mut ImageHasher, data: &[u8])
    ensures
        sha256_absorbed(*final(hasher)) == sha256_absorbed(*old(hasher)) + data@,
{
    sha2::Digest::update(&mut hasher.hasher, data);
}

/// Calls `Digest::finalize` of `sha2`: the 32 bytes of the digest of all
/// that the hasher took in.
#[verifier::external_body]
pub(crate) fn sha256_finalize(hasher: ImageHasher) -> (digest: Vec<u8>)
    ensures
        digest@ == sha256_digest(sha256_absorbed(hasher)),
        digest@.len() == 32,
{
    sha2::Digest::finalize(hasher.hasher).to_vec()
}

/// The name of an image in the cache: the digest of its bytes in lower-case
/// hexadecimal.
pub open spec fn image_hash_of(data: Seq<u8>) -> Seq<char> {
    hex_lower(sha256_digest(data))
}

impl ImageHasher {
    /// The bytes taken in so far.
    pub open spec fn absorbed(&self) -> Seq<u8> {
        sha256_absorbed(*self)
    }

    /// A hasher that has taken nothing in.
    pub fn new() -> (hasher: ImageHasher)
        ensures
            hasher.absorbed() == Seq::<u8>::empty(),
    {
        sha256_new()
    }

    /// Takes one more chunk in.
    pub fn update(&mut self, chunk: &[u8])
        ensures
            final(self).absorbed() == old(self).absorbed() + chunk@,
    {
        sha256_update(self, chunk);
    }

    /// The hash of everything taken in, as the 64 hexadecimal characters
    /// that name the image.
    pub fn finalize(self) -> (hash: String)
        ensures
            hash@ == image_hash_of(self.absorbed()),
    {
        let digest = sha256_finalize(self);
        hex_string(digest.as_slice())
    }
}

} // verus!
