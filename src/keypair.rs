use crate::global::{DangerousDebugPrint, LyreChainError, Result, ZeroizeOutcome};
use crate::render::{redacted_text, redacted_text_of, unredacted_text, unredacted_text_of};
use crate::trusted::{
    array_vec_bytes, array_vec_clone, array_vec_from, array_vec_slice, ed25519_public,
    ed25519_public_of, os_random_key, secret_bytes, secret_expose, secret_new, SecretKeyBytes,
};
use arrayvec::ArrayVec;
use vstd::prelude::*;

verus! {

/// Thirty-two zero bytes: the private key of a placeholder or scrubbed keypair.
pub open spec fn zero_key() -> Seq<u8> {
    Seq::new(32, |i: int| 0u8)
}

/// An Ed25519 keypair. The private half is only ever handed out wrapped in a
/// [`SecretKeyBytes`], or through the explicitly dangerous rendering.
pub struct LyreKeyPair {
    pub(crate) privkey: SecretKeyBytes,
    pub pubkey: ArrayVec<u8, 32>,
}

impl LyreKeyPair {
    /// The private key bytes.
    pub open(crate) spec fn private_view(&self) -> Seq<u8> {
        secret_bytes(self.privkey)
    }

    /// The public key bytes.
    pub open(crate) spec fn public_view(&self) -> Seq<u8> {
        array_vec_bytes(self.pubkey)
    }

    /// Both halves hold 32 bytes.
    pub open spec fn wf(&self) -> bool {
        self.private_view().len() == 32 && self.public_view().len() == 32
    }

    /// Installs `privkey` as the private key and its derived public key.
    pub fn set_private_key(&mut self, privkey: [u8; 32])
        ensures
            final(self).private_view() == privkey@,
            final(self).public_view() == ed25519_public_of(privkey@),
            final(self).wf(),
    {
        let pubkey = ed25519_public(&privkey);
        self.privkey = secret_new(privkey);
        self.pubkey = array_vec_from(pubkey);
    }

    /// Replaces the keypair with a fresh one whose private key comes from the
    /// operating system's generator. When the generator fails, the keypair is
    /// left as it was and `Other` is returned.
    pub fn new_key(&mut self) -> (r: Result<()>)
        ensures
            r is Ok ==> final(self).wf() && final(self).public_view() == ed25519_public_of(
                final(self).private_view(),
            ),
            r is Err ==> r == Err::<(), LyreChainError>(LyreChainError::Other) && *final(self)
                == *old(self),
    {
        match os_random_key() {
            Some(privkey) => {
                self.set_private_key(privkey);
                Ok(())
            },
            None => Err(LyreChainError::Other),
        }
    }

    /// A copy of the public key.
    pub fn get_pubkey(&self) -> (r: ArrayVec<u8, 32>)
        requires
            self.wf(),
        ensures
            array_vec_bytes(r) == self.public_view(),
            array_vec_bytes(r).len() == 32,
    {
        array_vec_clone(&self.pubkey)
    }

    /// A copy of the private key, still wrapped as a secret. Whoever receives
    /// it is responsible for not leaking it further.
    pub fn get_privkey(&self) -> (r: SecretKeyBytes)
        ensures
            secret_bytes(r) == self.private_view(),
    {
        secret_new(secret_expose(&self.privkey))
    }

    /// Overwrites the private key with zeros, leaving the public key as it
    /// is, then checks that only zeros remain.
    pub fn zero_privkey(&mut self) -> (r: ZeroizeOutcome)
        ensures
            final(self).private_view() == zero_key(),
            final(self).public_view() == old(self).public_view(),
            (r == ZeroizeOutcome::Completed) == (final(self).private_view() == zero_key()),
            old(self).wf() ==> final(self).wf(),
    {
        self.privkey = secret_new([0u8; 32]);
        let bytes = secret_expose(&self.privkey);
        let mut i: usize = 0;
        while i < 32
            invariant
                i <= 32,
                bytes@ == zero_key(),
            decreases 32 - i,
        {
            if bytes[i] != 0 {
                return ZeroizeOutcome::Failed;
            }
            i = i + 1;
        }
        ZeroizeOutcome::Completed
    }

    /// The redacted rendering: the public key in the clear and a fixed marker
    /// in place of the private key.
    pub fn to_string(&self) -> (r: String)
        ensures
            r@ == redacted_text_of(self.public_view()),
    {
        redacted_text(array_vec_slice(&self.pubkey))
    }
}

/// The redacted rendering depends on the public key alone: two keypairs that
/// share a public key render the same whatever their private keys, so no
/// private byte can show through it.
pub proof fn lemma_redacted_text_ignores_private_key(a: LyreKeyPair, b: LyreKeyPair)
    requires
        a.public_view() == b.public_view(),
    ensures
        redacted_text_of(a.public_view()) == redacted_text_of(b.public_view()),
{
}

/// Once the private key has been scrubbed, a copy exposed from the keypair
/// holds 32 zero bytes.
pub proof fn lemma_scrubbed_key_exposes_zeros(k: LyreKeyPair, exposed: SecretKeyBytes)
    requires
        k.private_view() == zero_key(),
        secret_bytes(exposed) == k.private_view(),
    ensures
        secret_bytes(exposed) == zero_key(),
        secret_bytes(exposed).len() == 32,
        forall|i: int| 0 <= i < 32 ==> secret_bytes(exposed)[i] == 0,
{
}

impl Default for LyreKeyPair {
    /// A placeholder keypair: both halves all zero.
    fn default() -> (r: Self)
        ensures
            r.private_view() == zero_key(),
            r.public_view() == zero_key(),
            r.wf(),
    {
        let r = LyreKeyPair { privkey: secret_new([0u8; 32]), pubkey: array_vec_from([0u8; 32]) };
        assert(r.private_view() =~= zero_key());
        assert(r.public_view() =~= zero_key());
        r
    }
}

impl DangerousDebugPrint for LyreKeyPair {
    /// Both halves in the clear: for debugging only.
    fn dangerous_debug(&self) -> (r: String)
        ensures
            r@ == unredacted_text_of(self.private_view(), self.public_view()),
    {
        let privkey = secret_expose(&self.privkey);
        unredacted_text(privkey.as_slice(), array_vec_slice(&self.pubkey))
    }
}

} // verus!
