use lyre_wallet::{DangerousDebugPrint, LyreKeyPair, ZeroizeOutcome};

const RFC_SECRET: [u8; 32] = [
    0x9d, 0x61, 0xb1, 0x9d, 0xef, 0xfd, 0x5a, 0x60, 0xba, 0x84, 0x4a, 0xf4, 0x92, 0xec, 0x2c, 0xc4,
    0x44, 0x49, 0xc5, 0x69, 0x7b, 0x32, 0x69, 0x19, 0x70, 0x3b, 0xac, 0x03, 0x1c, 0xae, 0x7f, 0x60,
];

const RFC_PUBLIC: [u8; 32] = [
    0xd7, 0x5a, 0x98, 0x01, 0x82, 0xb1, 0x0a, 0xb7, 0xd5, 0x4b, 0xfe, 0xd3, 0xc9, 0x64, 0x07, 0x3a,
    0x0e, 0xe1, 0x72, 0xf3, 0xda, 0xa6, 0x23, 0x25, 0xaf, 0x02, 0x1a, 0x68, 0xf7, 0x07, 0x51, 0x1a,
];

fn derived_public(secret: &[u8; 32]) -> [u8; 32] {
    ed25519_dalek::SigningKey::from_bytes(secret).verifying_key().to_bytes()
}

#[test]
fn default_keypair_is_all_zero() {
    let keys = LyreKeyPair::default();
    assert_eq!(keys.get_privkey().expose_secret(), [0u8; 32]);
    assert_eq!(keys.get_pubkey().as_slice(), &[0u8; 32][..]);
}

#[test]
fn set_private_key_derives_rfc8032_public_key() {
    let mut keys = LyreKeyPair::default();
    keys.set_private_key(RFC_SECRET);
    assert_eq!(keys.get_privkey().expose_secret(), RFC_SECRET);
    assert_eq!(keys.get_pubkey().as_slice(), &RFC_PUBLIC[..]);
}

#[test]
fn new_key_public_key_is_derived_from_private_key() {
    for _ in 0..4 {
        let mut keys = LyreKeyPair::default();
        assert_eq!(keys.new_key(), Ok(()));
        let privkey = keys.get_privkey().expose_secret();
        assert_ne!(privkey, [0u8; 32]);
        assert_eq!(keys.get_pubkey().as_slice(), &derived_public(&privkey)[..]);
    }
}

#[test]
fn new_key_draws_fresh_keys() {
    let mut a = LyreKeyPair::default();
    let mut b = LyreKeyPair::default();
    assert_eq!(a.new_key(), Ok(()));
    assert_eq!(b.new_key(), Ok(()));
    assert_ne!(a.get_privkey().expose_secret(), b.get_privkey().expose_secret());
}

#[test]
fn zero_privkey_scrubs_only_private_half() {
    let mut keys = LyreKeyPair::default();
    keys.set_private_key(RFC_SECRET);
    assert_eq!(keys.zero_privkey(), ZeroizeOutcome::Completed);
    assert_eq!(keys.get_privkey().expose_secret(), [0u8; 32]);
    assert_eq!(keys.get_pubkey().as_slice(), &RFC_PUBLIC[..]);
}

#[test]
fn zero_privkey_on_placeholder_completes() {
    let mut keys = LyreKeyPair::default();
    assert_eq!(keys.zero_privkey(), ZeroizeOutcome::Completed);
    assert_eq!(keys.get_privkey().expose_secret(), [0u8; 32]);
}

#[test]
fn redacted_text_of_placeholder() {
    let keys = LyreKeyPair::default();
    let zeros = vec!["0"; 32].join(", ");
    assert_eq!(
        keys.to_string(),
        format!("LyreKeyPair {{ privkey: \"REDACTED\", PUB_KEY: [{}] }}", zeros)
    );
}

#[test]
fn redacted_text_hides_private_key() {
    let mut keys = LyreKeyPair::default();
    keys.set_private_key(RFC_SECRET);
    let text = keys.to_string();
    assert!(text.contains("REDACTED"));
    assert!(!text.contains(&format!("{:?}", RFC_SECRET)));
    assert!(text.contains(&format!("{:?}", RFC_PUBLIC)));
}

#[test]
fn redacted_text_is_the_same_for_any_private_key() {
    let mut a = LyreKeyPair::default();
    a.set_private_key(RFC_SECRET);
    let mut b = LyreKeyPair::default();
    b.set_private_key([7u8; 32]);
    b.pubkey = a.get_pubkey();
    assert_eq!(a.to_string(), b.to_string());
}

#[test]
fn exposed_secret_debug_is_redacted() {
    let mut keys = LyreKeyPair::default();
    keys.set_private_key(RFC_SECRET);
    let text = format!("{:?}", keys.get_privkey());
    assert!(text.contains("REDACTED"));
    assert!(!text.contains(&format!("{:?}", RFC_SECRET)));
}

#[test]
fn dangerous_debug_shows_both_keys() {
    let mut keys = LyreKeyPair::default();
    keys.set_private_key(RFC_SECRET);
    assert_eq!(
        keys.dangerous_debug(),
        format!("LyreKeyPair {{ privkey: {:?}, pubkey: {:?} }}", RFC_SECRET, RFC_PUBLIC)
    );
}

#[test]
fn dangerous_debug_of_placeholder() {
    let keys = LyreKeyPair::default();
    let zeros = vec!["0"; 32].join(", ");
    assert_eq!(
        keys.dangerous_debug(),
        format!("LyreKeyPair {{ privkey: [{}], pubkey: [{}] }}", zeros, zeros)
    );
}

#[test]
fn byte_list_text_matches_debug_formatting() {
    let bytes: Vec<u8> = vec![0, 1, 9, 10, 42, 99, 100, 101, 199, 200, 250, 255];
    let mut out = String::from("x");
    lyre_wallet::push_byte_list(&mut out, &bytes);
    assert_eq!(out, format!("x{:?}", bytes));
    let mut empty = String::new();
    lyre_wallet::push_byte_list(&mut empty, &[]);
    assert_eq!(empty, "[]");
}

#[test]
fn byte_list_text_of_every_byte() {
    let bytes: Vec<u8> = (0..=255u8).collect();
    let mut out = String::new();
    lyre_wallet::push_byte_list(&mut out, &bytes);
    assert_eq!(out, format!("{:?}", bytes));
}
