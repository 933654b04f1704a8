//! The stored form of a keypair: a 65-byte record made of a cipher tag, the
//! private key material and the public key.
use crate::global::{LyreChainError, LyreWalletOps, Result, StorageCipher};
use crate::keypair::LyreKeyPair;
use crate::trusted::{array_vec_from, array_vec_slice, secret_expose, secret_new};
use vstd::prelude::*;

verus! {

/// Length of a stored record: one tag byte and two 32-byte keys.
pub const RECORD_LEN: usize = 65;

/// The tag byte of a record whose private key is stored as plain bytes.
pub const PLAIN_BYTES_TAG: u8 = 0;

/// The cipher that a record's tag byte selects.
pub open spec fn cipher_for_tag(tag: u8) -> StorageCipher {
    if tag == 0 {
        StorageCipher::PlainBytes
    } else if tag == 1 {
        StorageCipher::Base58
    } else if tag == 2 {
        StorageCipher::XChaCha20Blake3Aead
    } else if tag == 3 {
        StorageCipher::XChaCha12Blake3Aead
    } else if tag == 4 {
        StorageCipher::XChaCha8Blake3Aead
    } else {
        StorageCipher::UnsupportedCipher
    }
}

/// The plain-bytes record of a keypair: the tag, then the private key, then
/// the public key.
pub open spec fn plain_record(privkey: Seq<u8>, pubkey: Seq<u8>) -> Seq<u8> {
    seq![PLAIN_BYTES_TAG] + privkey + pubkey
}

/// The private and public keys of a well-formed plain-bytes record.
pub open spec fn plain_record_keys(record: Seq<u8>) -> Option<(Seq<u8>, Seq<u8>)> {
    if record.len() == RECORD_LEN && record[0] == PLAIN_BYTES_TAG {
        Some((record.subrange(1, 33), record.subrange(33, 65)))
    } else {
        None
    }
}

/// Storing a keypair as a plain-bytes record and reading that record back
/// gives the same private and public key bytes; the record is 65 bytes long
/// and starts with the plain-bytes tag.
pub proof fn lemma_plain_record_round_trip(privkey: Seq<u8>, pubkey: Seq<u8>)
    requires
        privkey.len() == 32,
        pubkey.len() == 32,
    ensures
        plain_record(privkey, pubkey).len() == RECORD_LEN,
        plain_record(privkey, pubkey)[0] == PLAIN_BYTES_TAG,
        plain_record_keys(plain_record(privkey, pubkey)) == Some((privkey, pubkey)),
{
    let record = plain_record(privkey, pubkey);
    assert(record.subrange(1, 33) =~= privkey);
    assert(record.subrange(33, 65) =~= pubkey);
}

/// Reads the cipher tag of a record.
pub fn cipher_of_tag(tag: u8) -> (r: StorageCipher)
    ensures
        r == cipher_for_tag(tag),
{
    match tag {
        0 => StorageCipher::PlainBytes,
        1 => StorageCipher::Base58,
        2 => StorageCipher::XChaCha20Blake3Aead,
        3 => StorageCipher::XChaCha12Blake3Aead,
        4 => StorageCipher::XChaCha8Blake3Aead,
        _ => StorageCipher::UnsupportedCipher,
    }
}

/// Copies the 32 bytes of `record` that start at `start`.
fn key_at(record: &[u8], start: usize) -> (r: [u8; 32])
    requires
        start + 32 <= record@.len(),
    ensures
        r@ == record@.subrange(start as int, start + 32),
{
    let mut key = [0u8; 32];
    let mut i: usize = 0;
    while i < 32
        invariant
            i <= 32,
            start + 32 <= record@.len(),
            forall|j: int| 0 <= j < i ==> key@[j] == record@[start + j],
        decreases 32 - i,
    {
        assert(start + i < record@.len() <= usize::MAX) by {
            assert(record@.len() == record.len());
        }
        key[i] = record[start + i];
        i = i + 1;
    }
    assert(key@ =~= record@.subrange(start as int, start + 32));
    key
}

impl LyreKeyPair {
    /// The plain-bytes record of this keypair. It stores the private key
    /// unencrypted, so it is meant for debugging, not for production storage.
    pub fn to_plain_record(&self) -> (r: [u8; 65])
        requires
            self.wf(),
        ensures
            r@ == plain_record(self.private_view(), self.public_view()),
    {
        let privkey = secret_expose(&self.privkey);
        let pubkey = array_vec_slice(&self.pubkey);
        let mut record = [0u8; 65];
        record[0] = PLAIN_BYTES_TAG;
        let mut i: usize = 0;
        while i < 32
            invariant
                i <= 32,
                pubkey@.len() == 32,
                record@.len() == 65,
                record@[0] == PLAIN_BYTES_TAG,
                forall|j: int| 0 <= j < i ==> record@[1 + j] == privkey@[j],
                forall|j: int| 0 <= j < i ==> record@[33 + j] == pubkey@[j],
            decreases 32 - i,
        {
            record[1 + i] = privkey[i];
            record[33 + i] = pubkey[i];
            i = i + 1;
        }
        assert(record@ =~= plain_record(privkey@, pubkey@));
        record
    }

    /// Reads a stored record into this keypair. A record with a tag other than
    /// plain bytes is refused as unsupported; a plain-bytes record (or an empty
    /// one) that is not exactly 65 bytes long is refused as malformed. On any
    /// error the keypair is left as it was.
    pub fn load_record(&mut self, record: &[u8]) -> (r: Result<LyreWalletOps>)
        ensures
            r is Ok <==> plain_record_keys(record@) is Some,
            plain_record_keys(record@) matches Some((privkey, pubkey)) ==> r == Ok::<
                LyreWalletOps,
                LyreChainError,
            >(LyreWalletOps::LoadedKeyPair) && final(self).private_view() == privkey
                && final(self).public_view() == pubkey,
            r is Err ==> *final(self) == *old(self),
            r is Ok || old(self).wf() ==> final(self).wf(),
            record@.len() > 0 && record@[0] != PLAIN_BYTES_TAG ==> (r matches Err(
                LyreChainError::UnsupportedError(_),
            )),
            record@.len() == 0 || (record@[0] == PLAIN_BYTES_TAG && record@.len() != RECORD_LEN)
                ==> r == Err::<LyreWalletOps, LyreChainError>(
                LyreChainError::TryIntoU8_32LenError,
            ),
    {
        if record.len() == 0 {
            return Err(LyreChainError::TryIntoU8_32LenError);
        }
        match cipher_of_tag(record[0]) {
            StorageCipher::PlainBytes => {
                if record.len() != RECORD_LEN {
                    return Err(LyreChainError::TryIntoU8_32LenError);
                }
                let privkey = key_at(record, 1);
                let pubkey = key_at(record, 33);
                self.privkey = secret_new(privkey);
                self.pubkey = array_vec_from(pubkey);
                Ok(LyreWalletOps::LoadedKeyPair)
            },
            _ => Err(LyreChainError::UnsupportedError("unsupported storage cipher".to_owned())),
        }
    }
}

} // verus!
