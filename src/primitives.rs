//! Calls into the hash, MAC, AEAD and X25519 implementations, each behind a
//! contract stated over a name for what the call returns.

use vstd::prelude::*;
use chacha20poly1305::aead::{Aead, KeyInit, Payload};
use hmac::Mac;
use sha2::Digest;
use ed25519_compact::Error as E;

verus! {

/// Length of a SHA-256 digest, of an X25519 key and of a ChaCha20-Poly1305 key.
pub const KEY_LEN: usize = 32;

/// Length of the Poly1305 authentication tag appended to every ciphertext.
pub const TAG_LEN: usize = 16;

/// Plaintexts of this many bytes or more are refused by the AEAD
/// (64-byte blocks, fewer than `u32::MAX` of them); ciphertexts are held
/// below the same bound.
pub const AEAD_MAX_LEN: u64 = 274877906880;

/// SHA-256 of a byte string.
pub uninterp spec fn sha256_of(data: Seq<u8>) -> Seq<u8>;

/// HMAC-SHA-256 of `data` under `key`.
pub uninterp spec fn hmac_of(key: Seq<u8>, data: Seq<u8>) -> Seq<u8>;

/// ChaCha20-Poly1305 sealing: ciphertext followed by the tag.
pub uninterp spec fn seal_of(key: Seq<u8>, nonce: Seq<u8>, ad: Seq<u8>, pt: Seq<u8>) -> Seq<u8>;

/// The X25519 public key of a secret scalar (clamped, times the base point).
pub uninterp spec fn public_of(sk: Seq<u8>) -> Seq<u8>;

/// The X25519 shared point of a secret scalar and a public point.
pub uninterp spec fn dh_of(sk: Seq<u8>, pk: Seq<u8>) -> Seq<u8>;

/// Relies on sha2::Sha256::digest: a 32-byte digest of the input.
#[verifier::external_body]
pub(crate) fn sha256(data: &[u8]) -> (r: [u8; KEY_LEN])
    ensures
        r@ == sha256_of(data@),
{
    sha2::Sha256::digest(data).into()
}

/// Relies on hmac::Hmac<Sha256>: any key length is accepted (`new_from_slice`
/// never fails for HMAC), and the tag is 32 bytes.
#[verifier::external_body]
pub(crate) fn hmac_sha256(key: &[u8], data: &[u8]) -> (r: [u8; KEY_LEN])
    ensures
        r@ == hmac_of(key@, data@),
{
    let mut mac = <hmac::Hmac<sha2::Sha256> as Mac>::new_from_slice(key).unwrap();
    mac.update(data);
    mac.finalize().into_bytes().into()
}

/// Relies on chacha20poly1305::ChaCha20Poly1305::encrypt: the ciphertext has
/// the length of the plaintext, followed by a 16-byte tag; it fails only on
/// plaintexts of `AEAD_MAX_LEN` bytes or more.
#[verifier::external_body]
pub(crate) fn aead_seal(key: &[u8; KEY_LEN], nonce: &[u8; 12], ad: &[u8], pt: &[u8]) -> (r: Vec<u8>)
    requires
        pt@.len() < AEAD_MAX_LEN,
    ensures
        r@ == seal_of(key@, nonce@, ad@, pt@),
        r@.len() == pt@.len() + TAG_LEN,
{
    let cipher = chacha20poly1305::ChaCha20Poly1305::new(key.into());
    cipher.encrypt(nonce.into(), Payload { msg: pt, aad: ad }).unwrap()
}

/// Relies on chacha20poly1305::ChaCha20Poly1305::decrypt: it returns the
/// plaintext exactly when the tag verifies, that is when the input is the
/// sealing of that plaintext under the same key, nonce and associated data;
/// the keystream is a bijection, so no other plaintext seals to the same input.
#[verifier::external_body]
pub(crate) fn aead_open(key: &[u8; KEY_LEN], nonce: &[u8; 12], ad: &[u8], ct: &[u8]) -> (r: Option<Vec<u8>>)
    requires
        ct@.len() < AEAD_MAX_LEN,
    ensures
        match r {
            Some(pt) => seal_of(key@, nonce@, ad@, pt@) == ct@
                && forall|q: Seq<u8>| seal_of(key@, nonce@, ad@, q) == ct@ ==> q == pt@,
            None => forall|pt: Seq<u8>| seal_of(key@, nonce@, ad@, pt) != ct@,
        },
{
    let cipher = chacha20poly1305::ChaCha20Poly1305::new(key.into());
    cipher.decrypt(nonce.into(), Payload { msg: ct, aad: ad }).ok()
}

#[verifier::external_type_specification]
#[verifier::external_body]
pub struct ExCurveError(ed25519_compact::Error);

/// The failures that the X25519 calls report, as plain values.
#[derive(Clone, Copy, Debug, PartialEq, Eq, Structural)]
pub enum CurveFault {
    SignatureMismatch,
    WeakPublicKey,
    InvalidPublicKey,
    InvalidSecretKey,
    InvalidSignature,
    InvalidSeed,
    InvalidBlind,
    InvalidNoise,
    ParseError,
    NonCanonical,
}

/// Relies on ed25519_compact::Error having these ten variants; one arm each.
#[verifier::external_body]
pub(crate) fn curve_fault(e: ed25519_compact::Error) -> (r: CurveFault) {
    match e {
        E::SignatureMismatch => CurveFault::SignatureMismatch,
        E::WeakPublicKey => CurveFault::WeakPublicKey,
        E::InvalidPublicKey => CurveFault::InvalidPublicKey,
        E::InvalidSecretKey => CurveFault::InvalidSecretKey,
        E::InvalidSignature => CurveFault::InvalidSignature,
        E::InvalidSeed => CurveFault::InvalidSeed,
        E::InvalidBlind => CurveFault::InvalidBlind,
        E::InvalidNoise => CurveFault::InvalidNoise,
        E::ParseError => CurveFault::ParseError,
        E::NonCanonical => CurveFault::NonCanonical,
    }
}

/// Relies on zeroize::Zeroize for `[u8; N]`: a volatile write of zero to every
/// byte, which the compiler keeps even when the value is dead afterwards.
#[verifier::external_body]
pub(crate) fn wipe(b: &mut [u8; KEY_LEN])
    ensures
        final(b)@ == Seq::new(KEY_LEN as nat, |i: int| 0u8),
    opens_invariants none
    no_unwind
{
    zeroize::Zeroize::zeroize(b)
}

/// A 32-byte encoding of a field element below 2^255 - 19, or one with the
/// top bit set: what the X25519 public key parser accepts.
pub open spec fn canonical_point(b: Seq<u8>) -> bool {
    b.len() == KEY_LEN && !(b[31] == 0x7f && b[0] >= 0xed
        && forall|i: int| 1 <= i < 31 ==> b[i] == 0xff)
}

/// Relies on ed25519_compact::x25519::PublicKey::from_slice: it accepts exactly
/// the 32-byte canonical encodings, and keeps their bytes.
#[verifier::external_body]
pub(crate) fn x25519_pk_from_slice(b: &[u8]) -> (r: Result<[u8; KEY_LEN], ed25519_compact::Error>)
    ensures
        r is Ok <==> canonical_point(b@),
        r is Ok ==> r->Ok_0@ == b@,
{
    ed25519_compact::x25519::PublicKey::from_slice(b).map(|pk| *pk)
}

/// Relies on ed25519_compact::x25519::SecretKey::recover_public_key: the
/// clamped scalar times the base point is never the identity, so the ladder
/// never reports a weak result (`KeyPair::generate` relies on the same); the
/// key is fully reduced by `Fe::to_bytes`.
#[verifier::external_body]
pub(crate) fn x25519_public(sk: &[u8; KEY_LEN]) -> (r: Result<[u8; KEY_LEN], ed25519_compact::Error>)
    ensures
        r is Ok,
        r is Ok ==> r->Ok_0@ == public_of(sk@) && canonical_point(r->Ok_0@),
{
    ed25519_compact::x25519::SecretKey::new(*sk).recover_public_key().map(|pk| *pk)
}

/// Thirty-two zero bytes: the encoding of the identity.
pub open spec fn zero_point() -> Seq<u8> {
    Seq::new(KEY_LEN as nat, |i: int| 0u8)
}

/// Relies on ed25519_compact::x25519::PublicKey::dh: the Montgomery ladder
/// fails, with `WeakPublicKey`, exactly when the shared point is zero, and
/// otherwise returns it.
#[verifier::external_body]
pub(crate) fn x25519_dh(sk: &[u8; KEY_LEN], pk: &[u8; KEY_LEN]) -> (r: Result<[u8; KEY_LEN], ed25519_compact::Error>)
    ensures
        r is Ok <==> dh_of(sk@, pk@) != zero_point(),
        r is Ok ==> r->Ok_0@ == dh_of(sk@, pk@),
{
    let sk = ed25519_compact::x25519::SecretKey::new(*sk);
    ed25519_compact::x25519::PublicKey::new(*pk).dh(&sk).map(|out| *out)
}

/// Relies on ed25519_compact::x25519::KeyPair::generate: a random scalar and
/// the public key that `recover_public_key` gives for it.
#[verifier::external_body]
pub(crate) fn x25519_generate() -> (r: ([u8; KEY_LEN], [u8; KEY_LEN]))
    ensures
        r.1@ == public_of(r.0@),
        canonical_point(r.1@),
{
    let kp = ed25519_compact::x25519::KeyPair::generate();
    (*kp.sk, *kp.pk)
}

} // verus!
