//! Signing and box keys.

use vstd::prelude::*;

verus! {

/// The number of bytes of an Ed25519 secret key.
pub const SECRETKEYBYTES: usize = 64;

/// The number of bytes of an Ed25519 public key.
pub const PUBLICKEYBYTES: usize = 32;

/// The number of bytes of an Ed25519 signature.
pub const SIGNATUREBYTES: usize = 64;

/// A secret key and its public key.
#[derive(Debug, PartialEq, Eq)]
pub struct KeyPair {
    pub sk: Vec<u8>,
    pub pk: Vec<u8>,
}

/// The signed form of a message under an Ed25519 secret key.
pub uninterp spec fn ed25519_signed(message: Seq<u8>, sk: Seq<u8>) -> Seq<u8>;

/// The Ed25519 public key of a seed.
pub uninterp spec fn ed25519_public(seed: Seq<u8>) -> Seq<u8>;

/// The public key of a NaCl box secret key.
pub uninterp spec fn box_public(sk: Seq<u8>) -> Seq<u8>;

/// Whether two keys are an Ed25519 pair: the secret key is a seed of 32 bytes
/// followed by the public key that belongs to it.
pub open spec fn is_sign_pair(sk: Seq<u8>, pk: Seq<u8>) -> bool {
    &&& sk.len() == SECRETKEYBYTES
    &&& pk.len() == PUBLICKEYBYTES
    &&& sk.skip(32) == pk
    &&& pk == ed25519_public(sk.take(32))
}

/// Whether two keys are a pair for a NaCl box.
pub open spec fn is_box_pair(sk: Seq<u8>, pk: Seq<u8>) -> bool {
    &&& sk.len() == 32
    &&& pk.len() == 32
    &&& pk == box_public(sk)
}

/// `sodiumoxide::crypto::sign::gen_keypair`: some Ed25519 pair, whichever
/// comes. The seed is random; the public key is computed from it, and stands
/// in the secret key behind it.
#[verifier::external_body]
pub(crate) fn gen_sign_keypair() -> (r: KeyPair)
    ensures
        r.sk@.len() == SECRETKEYBYTES,
        r.pk@.len() == PUBLICKEYBYTES,
        r.sk@.skip(32) == r.pk@,
        r.pk@ == ed25519_public(r.sk@.take(32)),
{
    let (pk, sk) = sodiumoxide::crypto::sign::gen_keypair();
    KeyPair { sk: sk.0.to_vec(), pk: pk.0.to_vec() }
}

/// `sodiumoxide::crypto::box_::gen_keypair`: some pair for a NaCl box,
/// whichever comes. The secret key is random; the public key is computed from
/// it.
#[verifier::external_body]
pub(crate) fn gen_box_keypair() -> (r: KeyPair)
    ensures
        r.sk@.len() == 32,
        r.pk@.len() == 32,
        r.pk@ == box_public(r.sk@),
{
    let (pk, sk) = sodiumoxide::crypto::box_::gen_keypair();
    KeyPair { sk: sk.0.to_vec(), pk: pk.0.to_vec() }
}

/// `sodiumoxide::crypto::sign::sign`: the signature of `message` under `sk`,
/// followed by `message` itself. What no allocation can hold would panic.
#[verifier::external_body]
pub(crate) fn sign(message: &[u8], sk: &[u8]) -> (r: Vec<u8>)
    requires
        sk@.len() == SECRETKEYBYTES,
        message@.len() + SIGNATUREBYTES <= isize::MAX,
    ensures
        r@ == ed25519_signed(message@, sk@),
        r@.len() == SIGNATUREBYTES + message@.len(),
        r@.skip(SIGNATUREBYTES as int) == message@,
{
    let mut key = [0u8; SECRETKEYBYTES];
    key.copy_from_slice(sk);
    sodiumoxide::crypto::sign::sign(message, &sodiumoxide::crypto::sign::SecretKey(key))
}

} // verus!
