//! The signature scheme the harness drives: secp256k1 keys and
//! ECDSA signatures, reached only through the small wrappers below.

use vstd::prelude::*;
use rand::rngs::ThreadRng;
use secp256k1::ecdsa::Signature;
use secp256k1::{Message, PublicKey, SecretKey, SECP256K1};

verus! {

#[verifier::external_type_specification]
#[verifier::external_body]
pub struct ExSecretKey(secp256k1::SecretKey);

#[verifier::external_type_specification]
#[verifier::external_body]
pub struct ExPublicKey(secp256k1::PublicKey);

#[verifier::external_type_specification]
#[verifier::external_body]
pub struct ExSignature(secp256k1::ecdsa::Signature);

#[verifier::external_type_specification]
#[verifier::external_body]
pub struct ExError(secp256k1::Error);

#[verifier::external_type_specification]
#[verifier::external_body]
pub struct ExThreadRng(rand::rngs::ThreadRng);

/// Relies on `rand::thread_rng`: a handle on this thread's generator.
#[verifier::external_body]
pub(crate) fn thread_rng() -> ThreadRng {
    rand::thread_rng()
}

/// The public key that belongs to `secret_key`.
pub uninterp spec fn public_key_of(secret_key: SecretKey) -> PublicKey;

/// Whether ECDSA on secp256k1 accepts `signature` over the 32-byte digest
/// `message` under `public_key`.
pub uninterp spec fn ecdsa_accepts(message: Seq<u8>, signature: Signature, public_key: PublicKey) -> bool;

/// Relies on `Secp256k1::generate_keypair`, on the global context: a fresh
/// random secret key and the public key derived from it
/// (`PublicKey::from_secret_key`). Which pair comes out is not known.
#[verifier::external_body]
pub(crate) fn generate_keypair(rng: &mut ThreadRng) -> (r: (SecretKey, PublicKey))
    ensures
        r.1 == public_key_of(r.0),
{
    SECP256K1.generate_keypair(rng)
}

/// Relies on `Secp256k1::sign_ecdsa`, on the global context: an ECDSA
/// signature over the 32-byte digest `message` that verification accepts
/// under the public key of `secret_key`.
#[verifier::external_body]
pub(crate) fn sign_ecdsa(message: &[u8; 32], secret_key: &SecretKey) -> (r: Signature)
    ensures
        ecdsa_accepts(message@, r, public_key_of(*secret_key)),
{
    SECP256K1.sign_ecdsa(&Message::from_digest(*message), secret_key)
}

/// Relies on `Secp256k1::verify_ecdsa`, on the global context: `Ok` exactly
/// when `signature` is valid for `message` under `public_key`.
#[verifier::external_body]
pub(crate) fn verify_ecdsa(
    message: &[u8; 32],
    signature: &Signature,
    public_key: &PublicKey,
) -> (r: Result<(), secp256k1::Error>)
    ensures
        r is Ok <==> ecdsa_accepts(message@, *signature, *public_key),
{
    SECP256K1.verify_ecdsa(&Message::from_digest(*message), signature, public_key)
}

} // verus!
