//! The SHA-256 digest.

use sha2::{Digest, Sha256};
use vstd::prelude::*;

verus! {

/// The SHA-256 digest of a message.
pub uninterp spec fn sha256(message: Seq<u8>) -> Seq<u8>;

/// `sha2::Sha256`, fed with `first` and then with `second`: the digest of the
/// two in a row, which has 32 bytes.
#[verifier::external_body]
pub(crate) fn sha256_of(first: &[u8], second: &[u8]) -> (r: Vec<u8>)
    ensures
        r@ == sha256(first@ + second@),
        r@.len() == 32,
{
    let mut hasher = Sha256::new();
    hasher.update(first);
    hasher.update(second);
    hasher.finalize().to_vec()
}

} // verus!
