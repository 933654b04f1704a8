//! Signing keypairs for a wallet: generation, secret handling, and a small
//! tagged binary record for storing and restoring them.
mod global;
mod keypair;
mod record;
mod render;
mod trusted;

pub use global::{
    error_from_kind, io_error_kind_of, kind_error, DangerousDebugPrint, LyreChainError, LyreWalletOps, Result,
    StorageCipher, ZeroizeOutcome,
};
pub use keypair::{
    lemma_redacted_text_ignores_private_key, lemma_scrubbed_key_exposes_zeros, zero_key, LyreKeyPair,
};
pub use render::{
    byte_list_text, decimal_text, digit_text, list_items_text, push_byte_list, redacted_text_of,
    unredacted_text_of,
};
pub use trusted::{array_vec_bytes, ed25519_public_of, secret_bytes, SecretKeyBytes};
pub use record::{
    cipher_for_tag, cipher_of_tag, lemma_plain_record_round_trip, plain_record, plain_record_keys,
    PLAIN_BYTES_TAG, RECORD_LEN,
};
