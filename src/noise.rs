//! The Noise XK handshake over X25519, ChaCha20-Poly1305 and SHA-256, and the
//! transport transcoder that it yields.

use vstd::prelude::*;
use crate::primitives::{wipe, aead_open, aead_seal, hmac_sha256, seal_of, sha256, hmac_of, sha256_of, AEAD_MAX_LEN, KEY_LEN, TAG_LEN};

verus! {

/// Why a handshake or transport operation failed.
#[derive(Clone, Copy, Debug, PartialEq, Eq, Structural)]
pub enum NoiseError {
    /// An authentication tag did not verify.
    AuthenticationFailed,
    /// The nonce counter of a cipher state is used up.
    NonceExhausted,
    /// A handshake message has the wrong length.
    InvalidMessageLength,
    /// The operation is not the one that the handshake expects next.
    OutOfOrder,
    /// A handshake has already failed, or has not completed.
    SessionUnusable,
    /// A key agreement failed.
    Ecdh(crate::ec::EcdhError),
}

/// The largest payload that a single message may carry.
pub const MAX_PAYLOAD: u64 = 274877906000;

/// The 12-byte AEAD nonce for a counter: four zero bytes, then the counter
/// in little-endian order.
pub open spec fn nonce_bytes(n: u64) -> Seq<u8> {
    seq![0u8, 0u8, 0u8, 0u8,
        (n & 0xff) as u8, ((n >> 8u64) & 0xff) as u8, ((n >> 16u64) & 0xff) as u8,
        ((n >> 24u64) & 0xff) as u8, ((n >> 32u64) & 0xff) as u8, ((n >> 40u64) & 0xff) as u8,
        ((n >> 48u64) & 0xff) as u8, ((n >> 56u64) & 0xff) as u8]
}

fn encode_nonce(n: u64) -> (r: [u8; 12])
    ensures
        r@ == nonce_bytes(n),
{
    let r: [u8; 12] = [0u8, 0u8, 0u8, 0u8,
        (n & 0xff) as u8, ((n >> 8u64) & 0xff) as u8, ((n >> 16u64) & 0xff) as u8,
        ((n >> 24u64) & 0xff) as u8, ((n >> 32u64) & 0xff) as u8, ((n >> 40u64) & 0xff) as u8,
        ((n >> 48u64) & 0xff) as u8, ((n >> 56u64) & 0xff) as u8];
    assert(r@ =~= nonce_bytes(n));
    r
}

pub(crate) fn concat(a: &[u8], b: &[u8]) -> (r: Vec<u8>)
    ensures
        r@ == a@ + b@,
{
    let mut v: Vec<u8> = Vec::new();
    let mut i: usize = 0;
    while i < a.len()
        invariant
            i <= a@.len(),
            v@ =~= a@.subrange(0, i as int),
        decreases a@.len() - i,
    {
        v.push(a[i]);
        i = i + 1;
    }
    let mut j: usize = 0;
    while j < b.len()
        invariant
            j <= b@.len(),
            v@ =~= a@ + b@.subrange(0, j as int),
        decreases b@.len() - j,
    {
        v.push(b[j]);
        j = j + 1;
    }
    assert(v@ =~= a@ + b@);
    v
}

/// The two outputs of the Noise HKDF on a chaining key and input key material.
pub open spec fn hkdf2(ck: Seq<u8>, ikm: Seq<u8>) -> (Seq<u8>, Seq<u8>) {
    let temp = hmac_of(ck, ikm);
    let o1 = hmac_of(temp, seq![1u8]);
    let o2 = hmac_of(temp, o1 + seq![2u8]);
    (o1, o2)
}

fn hkdf(ck: &[u8], ikm: &[u8]) -> (r: ([u8; KEY_LEN], [u8; KEY_LEN]))
    ensures
        (r.0@, r.1@) == hkdf2(ck@, ikm@),
{
    let temp = hmac_sha256(ck, ikm);
    let one: [u8; 1] = [1u8];
    let o1 = hmac_sha256(&temp, &one);
    let two: [u8; 1] = [2u8];
    let o1_two = concat(&o1, &two);
    let o2 = hmac_sha256(&temp, o1_two.as_slice());
    assert(one@ =~= seq![1u8]);
    assert(two@ =~= seq![2u8]);
    (o1, o2)
}

/// What a cipher state holds: an optional key and the next nonce.
pub struct CipherModel {
    pub key: Option<Seq<u8>>,
    pub nonce: u64,
}

/// A symmetric key with its nonce counter, for one direction of traffic.
pub struct CipherState {
    key: Option<[u8; KEY_LEN]>,
    nonce: u64,
}

impl View for CipherState {
    type V = CipherModel;

    closed spec fn view(&self) -> CipherModel {
        CipherModel {
            key: match self.key {
                Some(k) => Some(k@),
                None => None,
            },
            nonce: self.nonce,
        }
    }
}

/// The outcome of encrypting `pt` with associated data `ad`: the ciphertext and
/// the cipher state after it, or `None` when the nonces are used up.
pub open spec fn encrypt_spec(c: CipherModel, ad: Seq<u8>, pt: Seq<u8>) -> Option<(CipherModel, Seq<u8>)> {
    match c.key {
        None => Some((c, pt)),
        Some(k) => if c.nonce == u64::MAX {
            None
        } else {
            Some((CipherModel { key: c.key, nonce: (c.nonce + 1) as u64 }, seal_of(k, nonce_bytes(c.nonce), ad, pt)))
        },
    }
}

/// Whether `pt` is what decrypting `ct` under the cipher state may give.
pub open spec fn opens_to(c: CipherModel, ad: Seq<u8>, ct: Seq<u8>, pt: Seq<u8>) -> bool {
    match c.key {
        None => pt == ct,
        Some(k) => seal_of(k, nonce_bytes(c.nonce), ad, pt) == ct,
    }
}

/// The cipher state after a successful decryption.
pub open spec fn advance(c: CipherModel) -> CipherModel {
    match c.key {
        None => c,
        Some(k) => CipherModel { key: c.key, nonce: (c.nonce + 1) as u64 },
    }
}

/// Whether decrypting under the cipher state stops before any tag is checked.
pub open spec fn exhausted(c: CipherModel) -> bool {
    c.key is Some && c.nonce == u64::MAX
}

impl Drop for CipherState {
    /// Scrubs the key.
    fn drop(&mut self)
        opens_invariants none
        no_unwind
    {
        if let Some(k) = &mut self.key {
            wipe(k);
        }
    }
}

impl CipherState {
    /// A cipher state with a fresh key and nonce zero.
    pub fn with_key(key: [u8; KEY_LEN]) -> (r: CipherState)
        ensures
            r@ == (CipherModel { key: Some(key@), nonce: 0 }),
    {
        CipherState { key: Some(key), nonce: 0 }
    }

    /// A cipher state with `key` whose next message uses nonce `nonce`.
    pub fn with_key_at(key: [u8; KEY_LEN], nonce: u64) -> (r: CipherState)
        ensures
            r@ == (CipherModel { key: Some(key@), nonce }),
    {
        CipherState { key: Some(key), nonce }
    }

    /// A cipher state without a key: it passes data through unchanged.
    pub fn empty() -> (r: CipherState)
        ensures
            r@ == (CipherModel { key: None, nonce: 0 }),
    {
        CipherState { key: None, nonce: 0 }
    }

    /// The key, if any.
    pub fn key(&self) -> (r: Option<[u8; KEY_LEN]>)
        ensures
            match r {
                Some(k) => self@.key == Some(k@),
                None => self@.key is None,
            },
    {
        self.key
    }

    /// The nonce that the next message will use.
    pub fn nonce(&self) -> (r: u64)
        ensures
            r == self@.nonce,
    {
        self.nonce
    }

    /// Encrypts `pt` with associated data `ad` under the current nonce, then
    /// moves to the next nonce. Without a key the plaintext comes back as is.
    pub fn encrypt_with_ad(&mut self, ad: &[u8], pt: &[u8]) -> (r: Result<Vec<u8>, NoiseError>)
        requires
            pt@.len() < AEAD_MAX_LEN,
        ensures
            match encrypt_spec(old(self)@, ad@, pt@) {
                Some((c, ct)) => r is Ok && r->Ok_0@ == ct && final(self)@ == c,
                None => r == Err::<Vec<u8>, NoiseError>(NoiseError::NonceExhausted) && final(self)@ == old(self)@,
            },
            r is Ok ==> r->Ok_0@.len() == pt@.len() + if old(self)@.key is Some { TAG_LEN as int } else { 0 },
    {
        match self.key {
            None => {
                let v: Vec<u8> = Vec::new();
                let out = concat(&v, pt);
                assert(out@ =~= pt@);
                Ok(out)
            },
            Some(k) => {
                if self.nonce == u64::MAX {
                    return Err(NoiseError::NonceExhausted);
                }
                let nb = encode_nonce(self.nonce);
                let ct = aead_seal(&k, &nb, ad, pt);
                self.nonce = self.nonce + 1;
                Ok(ct)
            },
        }
    }

    /// Decrypts `ct` with associated data `ad` under the current nonce. On
    /// success moves to the next nonce; on failure the state is unchanged.
    pub fn decrypt_with_ad(&mut self, ad: &[u8], ct: &[u8]) -> (r: Result<Vec<u8>, NoiseError>)
        requires
            ct@.len() < AEAD_MAX_LEN,
        ensures
            exhausted(old(self)@) <==> r == Err::<Vec<u8>, NoiseError>(NoiseError::NonceExhausted),
            !exhausted(old(self)@) ==> (r == Err::<Vec<u8>, NoiseError>(NoiseError::AuthenticationFailed)
                <==> forall|pt: Seq<u8>| !opens_to(old(self)@, ad@, ct@, pt)),
            r is Ok ==> opens_to(old(self)@, ad@, ct@, r->Ok_0@) && final(self)@ == advance(old(self)@),
            r is Ok ==> forall|q: Seq<u8>| opens_to(old(self)@, ad@, ct@, q) ==> q == r->Ok_0@,
            r is Err ==> final(self)@ == old(self)@,
            r is Ok || r == Err::<Vec<u8>, NoiseError>(NoiseError::NonceExhausted)
                || r == Err::<Vec<u8>, NoiseError>(NoiseError::AuthenticationFailed),
    {
        match self.key {
            None => {
                let v: Vec<u8> = Vec::new();
                let out = concat(&v, ct);
                assert(out@ =~= ct@);
                assert(opens_to(self@, ad@, ct@, out@));
                Ok(out)
            },
            Some(k) => {
                if self.nonce == u64::MAX {
                    return Err(NoiseError::NonceExhausted);
                }
                let nb = encode_nonce(self.nonce);
                match aead_open(&k, &nb, ad, ct) {
                    Some(pt) => {
                        assert(opens_to(self@, ad@, ct@, pt@));
                        self.nonce = self.nonce + 1;
                        Ok(pt)
                    },
                    None => Err(NoiseError::AuthenticationFailed),
                }
            },
        }
    }
}

/// The protocol name, `Noise_XK_25519_ChaChaPoly_SHA256` in ASCII; being 32
/// bytes long it is the initial hash as it stands.
pub open spec fn protocol_name() -> Seq<u8> {
    seq![78, 111, 105, 115, 101, 95, 88, 75, 95, 50, 53, 53, 49, 57, 95, 67, 104, 97, 67, 104, 97, 80, 111, 108, 121, 95, 83, 72, 65, 50, 53, 54]
}

/// What a symmetric state holds: the chaining key, the transcript hash and
/// the cipher state of the current handshake key.
pub struct SymmetricModel {
    pub ck: Seq<u8>,
    pub h: Seq<u8>,
    pub cipher: CipherModel,
}

pub open spec fn initial_symmetric() -> SymmetricModel {
    SymmetricModel { ck: protocol_name(), h: protocol_name(), cipher: CipherModel { key: None, nonce: 0 } }
}

pub open spec fn with_cipher(s: SymmetricModel, c: CipherModel) -> SymmetricModel {
    SymmetricModel { ck: s.ck, h: s.h, cipher: c }
}

/// `h := SHA-256(h || data)`.
pub open spec fn mix_hash_spec(s: SymmetricModel, data: Seq<u8>) -> SymmetricModel {
    SymmetricModel { ck: s.ck, h: sha256_of(s.h + data), cipher: s.cipher }
}

/// `(ck, k) := HKDF(ck, ikm)`, and the cipher takes `k` with nonce zero.
pub open spec fn mix_key_spec(s: SymmetricModel, ikm: Seq<u8>) -> SymmetricModel {
    SymmetricModel { ck: hkdf2(s.ck, ikm).0, h: s.h, cipher: CipherModel { key: Some(hkdf2(s.ck, ikm).1), nonce: 0 } }
}

/// Encrypts under the transcript hash as associated data, then mixes the
/// ciphertext into the hash; `None` when the nonces are used up.
pub open spec fn encrypt_and_hash_spec(s: SymmetricModel, pt: Seq<u8>) -> Option<(SymmetricModel, Seq<u8>)> {
    match encrypt_spec(s.cipher, s.h, pt) {
        Some((c, ct)) => Some((mix_hash_spec(with_cipher(s, c), ct), ct)),
        None => None,
    }
}

/// The state after `ct` was decrypted: next nonce, ciphertext mixed in.
pub open spec fn decrypt_and_hash_spec(s: SymmetricModel, ct: Seq<u8>) -> SymmetricModel {
    mix_hash_spec(with_cipher(s, advance(s.cipher)), ct)
}

/// The two transport keys: HKDF of the chaining key with empty input.
pub open spec fn split_spec(s: SymmetricModel) -> (Seq<u8>, Seq<u8>) {
    hkdf2(s.ck, Seq::<u8>::empty())
}

/// The running chaining key and transcript hash of a handshake, with the
/// cipher state of its current key.
pub struct SymmetricState {
    ck: [u8; KEY_LEN],
    h: [u8; KEY_LEN],
    cipher: CipherState,
}

impl View for SymmetricState {
    type V = SymmetricModel;

    closed spec fn view(&self) -> SymmetricModel {
        SymmetricModel { ck: self.ck@, h: self.h@, cipher: self.cipher@ }
    }
}

impl Drop for SymmetricState {
    /// Scrubs the chaining key.
    fn drop(&mut self)
        opens_invariants none
        no_unwind
    {
        wipe(&mut self.ck);
    }
}

impl SymmetricState {
    /// The state at the start of a handshake.
    pub fn initialize() -> (r: SymmetricState)
        ensures
            r@ == initial_symmetric(),
    {
        let name: [u8; KEY_LEN] = [78, 111, 105, 115, 101, 95, 88, 75, 95, 50, 53, 53, 49, 57, 95, 67, 104, 97, 67, 104, 97, 80, 111, 108, 121, 95, 83, 72, 65, 50, 53, 54];
        assert(name@ =~= protocol_name());
        SymmetricState { ck: name, h: name, cipher: CipherState::empty() }
    }

    /// The transcript hash.
    pub fn handshake_hash(&self) -> (r: [u8; KEY_LEN])
        ensures
            r@ == self@.h,
    {
        self.h
    }

    /// Absorbs `data` into the transcript hash.
    pub fn mix_hash(&mut self, data: &[u8])
        ensures
            final(self)@ == mix_hash_spec(old(self)@, data@),
    {
        let joined = concat(&self.h, data);
        self.h = sha256(joined.as_slice());
    }

    /// Derives a new chaining key and handshake key from `ikm`.
    pub fn mix_key(&mut self, ikm: &[u8])
        ensures
            final(self)@ == mix_key_spec(old(self)@, ikm@),
    {
        let (ck, k) = hkdf(&self.ck, ikm);
        self.ck = ck;
        self.cipher = CipherState::with_key(k);
    }

    /// Encrypts `pt` under the handshake key, with the transcript hash as
    /// associated data, and mixes the ciphertext into the hash.
    pub fn encrypt_and_hash(&mut self, pt: &[u8]) -> (r: Result<Vec<u8>, NoiseError>)
        requires
            pt@.len() < AEAD_MAX_LEN,
        ensures
            match encrypt_and_hash_spec(old(self)@, pt@) {
                Some((s, ct)) => r is Ok && r->Ok_0@ == ct && final(self)@ == s,
                None => r == Err::<Vec<u8>, NoiseError>(NoiseError::NonceExhausted) && final(self)@ == old(self)@,
            },
            r is Ok ==> r->Ok_0@.len() == pt@.len() + if old(self)@.cipher.key is Some { TAG_LEN as int } else { 0 },
    {
        let h = self.h;
        let ct = self.cipher.encrypt_with_ad(&h, pt)?;
        self.mix_hash(ct.as_slice());
        Ok(ct)
    }

    /// Decrypts `ct` under the handshake key, with the transcript hash as
    /// associated data, and mixes the ciphertext into the hash.
    pub fn decrypt_and_hash(&mut self, ct: &[u8]) -> (r: Result<Vec<u8>, NoiseError>)
        requires
            ct@.len() < AEAD_MAX_LEN,
        ensures
            exhausted(old(self)@.cipher) <==> r == Err::<Vec<u8>, NoiseError>(NoiseError::NonceExhausted),
            !exhausted(old(self)@.cipher) ==> (r == Err::<Vec<u8>, NoiseError>(NoiseError::AuthenticationFailed)
                <==> forall|pt: Seq<u8>| !opens_to(old(self)@.cipher, old(self)@.h, ct@, pt)),
            r is Ok ==> opens_to(old(self)@.cipher, old(self)@.h, ct@, r->Ok_0@)
                && final(self)@ == decrypt_and_hash_spec(old(self)@, ct@),
            r is Ok ==> forall|q: Seq<u8>| opens_to(old(self)@.cipher, old(self)@.h, ct@, q) ==> q == r->Ok_0@,
            r is Err ==> final(self)@ == old(self)@,
            r is Ok || r == Err::<Vec<u8>, NoiseError>(NoiseError::NonceExhausted)
                || r == Err::<Vec<u8>, NoiseError>(NoiseError::AuthenticationFailed),
    {
        let h = self.h;
        let pt = self.cipher.decrypt_with_ad(&h, ct)?;
        self.mix_hash(ct);
        Ok(pt)
    }

    /// Derives the two transport cipher states from the final chaining key.
    pub fn split(&self) -> (r: (CipherState, CipherState))
        ensures
            r.0@ == (CipherModel { key: Some(split_spec(self@).0), nonce: 0 }),
            r.1@ == (CipherModel { key: Some(split_spec(self@).1), nonce: 0 }),
    {
        let empty: [u8; 0] = [];
        let (k1, k2) = hkdf(&self.ck, &empty);
        assert(empty@ =~= Seq::<u8>::empty());
        (CipherState::with_key(k1), CipherState::with_key(k2))
    }
}

/// Transport round trip: what a sending cipher state encrypts, a receiving
/// cipher state with the same key and nonce opens to the same plaintext, and
/// both move on to the same next nonce. With the uniqueness that decryption
/// promises, decrypting the result of an encryption gives back the plaintext.
pub proof fn lemma_transport_round_trip(send: CipherModel, recv: CipherModel, ad: Seq<u8>, pt: Seq<u8>)
    requires
        send == recv,
        send.key is Some,
        !exhausted(send),
    ensures
        encrypt_spec(send, ad, pt) is Some,
        opens_to(recv, ad, encrypt_spec(send, ad, pt)->Some_0.1, pt),
        advance(recv) == encrypt_spec(send, ad, pt)->Some_0.0,
{
}

} // verus!
