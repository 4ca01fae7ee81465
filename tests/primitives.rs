use chacha20poly1305::aead::{Aead, KeyInit, Payload};
use cyphernet_noise::noise::{CipherState, NoiseError, SymmetricState};
use hmac::Mac;
use sha2::Digest;

const NAME: &[u8; 32] = b"Noise_XK_25519_ChaChaPoly_SHA256";

fn nonce(n: u64) -> [u8; 12] {
    let mut out = [0u8; 12];
    out[4..].copy_from_slice(&n.to_le_bytes());
    out
}

fn seal(key: &[u8; 32], n: u64, ad: &[u8], pt: &[u8]) -> Vec<u8> {
    let c = chacha20poly1305::ChaCha20Poly1305::new(key.into());
    c.encrypt(&nonce(n).into(), Payload { msg: pt, aad: ad }).unwrap()
}

fn hmac(key: &[u8], data: &[u8]) -> [u8; 32] {
    let mut m = <hmac::Hmac<sha2::Sha256> as Mac>::new_from_slice(key).unwrap();
    m.update(data);
    m.finalize().into_bytes().into()
}

fn hkdf(ck: &[u8], ikm: &[u8]) -> ([u8; 32], [u8; 32]) {
    let temp = hmac(ck, ikm);
    let o1 = hmac(&temp, &[1]);
    let mut o1_two = o1.to_vec();
    o1_two.push(2);
    (o1, hmac(&temp, &o1_two))
}

#[test]
fn cipher_state_matches_chacha20poly1305() {
    let key = [0x42u8; 32];
    let mut cs = CipherState::with_key(key);
    let c0 = cs.encrypt_with_ad(b"ad", b"hello").unwrap();
    assert_eq!(c0, seal(&key, 0, b"ad", b"hello"));
    assert_eq!(c0.len(), 5 + 16);
    let c1 = cs.encrypt_with_ad(b"ad", b"hello").unwrap();
    assert_eq!(c1, seal(&key, 1, b"ad", b"hello"));
    assert_ne!(c0, c1);
    assert_eq!(cs.nonce(), 2);
    let mut rx = CipherState::with_key(key);
    assert_eq!(rx.decrypt_with_ad(b"ad", &c0).unwrap(), b"hello".to_vec());
    assert_eq!(rx.decrypt_with_ad(b"other", &c1), Err(NoiseError::AuthenticationFailed));
    assert_eq!(rx.nonce(), 1);
    assert_eq!(rx.decrypt_with_ad(b"ad", &c1).unwrap(), b"hello".to_vec());
}

#[test]
fn keyless_cipher_state_passes_through() {
    let mut cs = CipherState::empty();
    assert_eq!(cs.encrypt_with_ad(b"x", b"plain").unwrap(), b"plain".to_vec());
    assert_eq!(cs.decrypt_with_ad(b"x", b"plain").unwrap(), b"plain".to_vec());
    assert_eq!(cs.nonce(), 0);
    assert_eq!(cs.key(), None);
}

#[test]
fn nonce_exhaustion_is_fatal() {
    let key = [1u8; 32];
    let mut cs = CipherState::with_key_at(key, u64::MAX - 1);
    let c = cs.encrypt_with_ad(&[], b"last").unwrap();
    assert_eq!(c, seal(&key, u64::MAX - 1, &[], b"last"));
    assert_eq!(cs.encrypt_with_ad(&[], b"more"), Err(NoiseError::NonceExhausted));
    assert_eq!(cs.nonce(), u64::MAX);
    let mut rx = CipherState::with_key_at(key, u64::MAX);
    assert_eq!(rx.decrypt_with_ad(&[], &c), Err(NoiseError::NonceExhausted));
}

#[test]
fn symmetric_state_starts_at_protocol_name() {
    let s = SymmetricState::initialize();
    assert_eq!(&s.handshake_hash(), NAME);
}

#[test]
fn mix_hash_is_sha256_of_hash_and_data() {
    let mut s = SymmetricState::initialize();
    s.mix_hash(b"abc");
    let mut joined = NAME.to_vec();
    joined.extend_from_slice(b"abc");
    let expected: [u8; 32] = sha2::Sha256::digest(&joined).into();
    assert_eq!(s.handshake_hash(), expected);
}

#[test]
fn mix_key_then_encrypt_uses_hkdf_key_and_hash() {
    let mut s = SymmetricState::initialize();
    let before = s.handshake_hash();
    assert_eq!(s.encrypt_and_hash(b"clear").unwrap(), b"clear".to_vec());
    let mut joined = before.to_vec();
    joined.extend_from_slice(b"clear");
    let h1: [u8; 32] = sha2::Sha256::digest(&joined).into();
    assert_eq!(s.handshake_hash(), h1);
    s.mix_key(&[9u8; 32]);
    let (ck, k) = hkdf(NAME, &[9u8; 32]);
    let ct = s.encrypt_and_hash(b"secret").unwrap();
    assert_eq!(ct, seal(&k, 0, &h1, b"secret"));
    let (k1, k2) = s.split();
    let (e1, e2) = hkdf(&ck, &[]);
    assert_eq!(k1.key(), Some(e1));
    assert_eq!(k2.key(), Some(e2));
    assert_eq!(k1.nonce(), 0);
}

#[test]
fn decrypt_and_hash_inverts_encrypt_and_hash() {
    let mut a = SymmetricState::initialize();
    let mut b = SymmetricState::initialize();
    a.mix_key(b"ikm");
    b.mix_key(b"ikm");
    let ct = a.encrypt_and_hash(b"msg").unwrap();
    assert_eq!(b.decrypt_and_hash(&ct).unwrap(), b"msg".to_vec());
    assert_eq!(a.handshake_hash(), b.handshake_hash());
    let mut bad = a.encrypt_and_hash(b"msg2").unwrap();
    let last = bad.len() - 1;
    bad[last] ^= 0x80;
    let before = b.handshake_hash();
    assert_eq!(b.decrypt_and_hash(&bad), Err(NoiseError::AuthenticationFailed));
    assert_eq!(b.handshake_hash(), before);
}
