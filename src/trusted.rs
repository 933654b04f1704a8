//! The outside code this library relies on, each item with the contract that
//! the verified code builds on.
use arrayvec::ArrayVec;
use rand::RngCore;
use secrecy::{ExposeSecret, Secret};
use vstd::prelude::*;

verus! {

/// A 32-byte private key held in a `secrecy::Secret`, which zeroes the bytes
/// when the value is dropped and redacts them in its `Debug` output. The only
/// ways to read it are `expose_secret` and the unredacted rendering.
#[verifier::external_body]
#[derive(Debug)]
pub struct SecretKeyBytes {
    inner: Secret<[u8; 32]>,
}

#[verifier::external_type_specification]
#[verifier::external_body]
#[verifier::reject_recursive_types(T)]
pub struct ExArrayVec<T, const CAP: usize>(ArrayVec<T, CAP>);

impl SecretKeyBytes {
    /// The secret bytes themselves. Whoever reads them takes on the duty of
    /// not leaking them.
    pub fn expose_secret(&self) -> (r: [u8; 32])
        ensures
            r@ == secret_bytes(*self),
    {
        secret_expose(self)
    }
}

/// The bytes that a secret box holds.
pub uninterp spec fn secret_bytes(s: SecretKeyBytes) -> Seq<u8>;

/// The items that a 32-byte array vector holds, in order.
pub uninterp spec fn array_vec_bytes(v: ArrayVec<u8, 32>) -> Seq<u8>;

/// The Ed25519 public key (compressed point) derived from a 32-byte secret key.
pub uninterp spec fn ed25519_public_of(secret: Seq<u8>) -> Seq<u8>;

/// Relies on `secrecy::Secret::new`: the box holds exactly the given bytes.
#[verifier::external_body]
pub(crate) fn secret_new(bytes: [u8; 32]) -> (r: SecretKeyBytes)
    ensures
        secret_bytes(r) == bytes@,
{
    SecretKeyBytes { inner: Secret::new(bytes) }
}

/// Relies on `secrecy::ExposeSecret::expose_secret`: it hands out the held bytes.
#[verifier::external_body]
pub(crate) fn secret_expose(s: &SecretKeyBytes) -> (r: [u8; 32])
    ensures
        r@ == secret_bytes(*s),
{
    *s.inner.expose_secret()
}

/// Relies on `From<[T; CAP]> for arrayvec::ArrayVec<T, CAP>`: a full vector
/// holding the array's items in order.
#[verifier::external_body]
pub(crate) fn array_vec_from(bytes: [u8; 32]) -> (r: ArrayVec<u8, 32>)
    ensures
        array_vec_bytes(r) == bytes@,
{
    ArrayVec::from(bytes)
}

/// Relies on `Clone for arrayvec::ArrayVec`: the copy holds the same items.
#[verifier::external_body]
pub(crate) fn array_vec_clone(v: &ArrayVec<u8, 32>) -> (r: ArrayVec<u8, 32>)
    ensures
        array_vec_bytes(r) == array_vec_bytes(*v),
{
    v.clone()
}

/// Relies on `arrayvec::ArrayVec::as_slice`: the items held, never more than
/// the capacity.
#[verifier::external_body]
pub(crate) fn array_vec_slice(v: &ArrayVec<u8, 32>) -> (r: &[u8])
    ensures
        r@ == array_vec_bytes(*v),
        r@.len() <= 32,
{
    v.as_slice()
}

/// Relies on `ed25519_dalek::SigningKey::from_bytes` and `verifying_key`: the
/// public key depends on the secret key alone.
#[verifier::external_body]
pub(crate) fn ed25519_public(secret: &[u8; 32]) -> (r: [u8; 32])
    ensures
        r@ == ed25519_public_of(secret@),
{
    ed25519_dalek::SigningKey::from_bytes(secret).verifying_key().to_bytes()
}

/// Relies on `rand::rngs::OsRng::try_fill_bytes`: 32 bytes from the operating
/// system's generator, or `None` when the entropy source fails.
#[verifier::external_body]
pub(crate) fn os_random_key() -> (r: Option<[u8; 32]>) {
    let mut bytes = [0u8; 32];
    match rand::rngs::OsRng.try_fill_bytes(&mut bytes) {
        Ok(()) => Some(bytes),
        Err(_) => None,
    }
}

} // verus!
