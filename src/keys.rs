//! Hashing, keys, signatures and swap secrets.
use vstd::prelude::*;

use bitcoin::hashes::sha256;
use bitcoin::secp256k1::{Message, PublicKey, Secp256k1, SecretKey};

verus! {

/// Whether secp256k1 accepts the bytes as a secret key (32 bytes, a valid scalar).
pub uninterp spec fn secret_key_valid(key: Seq<u8>) -> bool;

/// The compressed public key of a secret key.
pub uninterp spec fn public_key_of(key: Seq<u8>) -> Seq<u8>;

/// The DER encoding of the RFC6979 ECDSA signature of a 32-byte digest under a secret key.
pub uninterp spec fn ecdsa_der_of(digest: Seq<u8>, key: Seq<u8>) -> Seq<u8>;

/// The SHA-256 digest of the bytes.
pub uninterp spec fn sha256_of(data: Seq<u8>) -> Seq<u8>;

/// Relies on bitcoin_hashes' `sha256::Hash::hash`: a 32-byte digest of the data.
#[verifier::external_body]
pub(crate) fn sha256_digest(data: &Vec<u8>) -> (r: Vec<u8>)
    ensures
        r@ == sha256_of(data@),
        r@.len() == 32,
{
    let h = <sha256::Hash as bitcoin::hashes::Hash>::hash(data);
    bitcoin::hashes::Hash::into_inner(h).to_vec()
}

/// Relies on secp256k1's `SecretKey::from_slice`, `PublicKey::from_secret_key` and
/// `PublicKey::serialize`: a valid key has 32 bytes and a 33-byte compressed public key.
#[verifier::external_body]
pub(crate) fn derive_public_key(key: &Vec<u8>) -> (r: Option<Vec<u8>>)
    ensures
        r is Some <==> secret_key_valid(key@),
        r matches Some(p) ==> p@ == public_key_of(key@) && p@.len() == 33 && key@.len() == 32,
{
    let sk = SecretKey::from_slice(key).ok()?;
    Some(PublicKey::from_secret_key(&Secp256k1::signing_only(), &sk).serialize().to_vec())
}

/// Relies on secp256k1's `SecretKey::from_slice`, `Message::from_slice`, `Secp256k1::sign_ecdsa`
/// (RFC6979 nonces) and `Signature::serialize_der`; a message must have 32 bytes.
#[verifier::external_body]
pub(crate) fn sign_digest(digest: &Vec<u8>, key: &Vec<u8>) -> (r: Option<Vec<u8>>)
    ensures
        r is Some <==> (secret_key_valid(key@) && digest@.len() == 32),
        r matches Some(s) ==> s@ == ecdsa_der_of(digest@, key@),
{
    let sk = SecretKey::from_slice(key).ok()?;
    let msg = Message::from_slice(digest).ok()?;
    Some(Secp256k1::signing_only().sign_ecdsa(&msg, &sk).serialize_der().to_vec())
}

/// Relies on secp256k1's `SecretKey::new`, which draws until the bytes form a valid key.
#[verifier::external_body]
pub(crate) fn random_secret_key() -> (r: Vec<u8>)
    ensures
        secret_key_valid(r@),
        r@.len() == 32,
{
    SecretKey::new(&mut bitcoin::secp256k1::rand::thread_rng()).secret_bytes().to_vec()
}

/// Relies on rand's `random` for 32 random bytes.
#[verifier::external_body]
pub(crate) fn random_preimage() -> (r: Vec<u8>)
    ensures
        r@.len() == 32,
{
    bitcoin::secp256k1::rand::random::<[u8; 32]>().to_vec()
}

} // verus!
