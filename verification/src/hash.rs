//! The one hash the store's files are checked with.

use vstd::prelude::*;
use sha3::Digest;

verus! {

/// The SHA3-256 digest of `data`.
pub uninterp spec fn sha3_256_digest(data: Seq<u8>) -> [u8; 32];

/// `sha3::Sha3_256::digest`, named and not written out: the thirty-two bytes
/// FIPS 202 gives for `data`, the same for the same bytes everywhere.
#[verifier::external_body]
pub(crate) fn sha3_256(data: &[u8]) -> (digest: [u8; 32])
    ensures
        digest == sha3_256_digest(data@),
{
    sha3::Sha3_256::digest(data).into()
}

} // verus!
