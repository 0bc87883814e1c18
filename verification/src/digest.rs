//! SHA-256, and what is fed to it.

use vstd::prelude::*;
use sha2::Digest;
use sha2::Sha256;

verus! {

/// A running SHA-256 computation.
#[verifier::external_type_specification]
#[verifier::external_body]
pub struct ExSha256(sha2::Sha256);

/// The bytes that were fed to a running computation.
pub uninterp spec fn hashed_bytes(hasher: Sha256) -> Seq<u8>;

/// The SHA-256 digest of some bytes.
pub uninterp spec fn sha256_of(bytes: Seq<u8>) -> Seq<u8>;

/// `sha2::Sha256::new`: nothing was fed yet.
#[verifier::external_body]
pub(crate) fn new_hasher() -> (r: Sha256)
    ensures
        hashed_bytes(r) == Seq::<u8>::empty(),
{
    Sha256::new()
}

/// `sha2::Sha256::update`: the bytes follow those fed before.
#[verifier::external_body]
pub(crate) fn feed(hasher: &mut Sha256, bytes: &[u8])
    ensures
        hashed_bytes(*final(hasher)) == hashed_bytes(*old(hasher)) + bytes@,
{
    hasher.update(bytes);
}

/// `sha2::Sha256::finalize` of a copy: the digest of everything fed so far.
#[verifier::external_body]
pub(crate) fn digest(hasher: &Sha256) -> (r: [u8; 32])
    ensures
        r@ == sha256_of(hashed_bytes(*hasher)),
{
    hasher.clone().finalize().into()
}

} // verus!
