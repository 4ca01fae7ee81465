//! Key types, the errors of key handling and agreement, and the capability
//! traits of an elliptic-curve backend, with X25519 as the backend.

use vstd::prelude::*;
use crate::primitives::{
    canonical_point, curve_fault, dh_of, zero_point, public_of, x25519_dh, x25519_generate,
    wipe, x25519_pk_from_slice, x25519_public, CurveFault, KEY_LEN,
};

verus! {

/// A secret key is malformed.
#[derive(Clone, Copy, Debug, PartialEq, Eq, Structural)]
#[non_exhaustive]
pub struct EcSkInvalid {}

/// A public key is malformed.
#[derive(Clone, Copy, Debug, PartialEq, Eq, Structural)]
#[non_exhaustive]
pub struct EcPkInvalid {}

/// Why a Diffie-Hellman agreement failed.
#[derive(Clone, Copy, Debug, PartialEq, Eq, Structural)]
#[non_exhaustive]
pub enum EcdhError {
    /// The peer's public key is a low-order point.
    WeakPk,
    InvalidPk(EcPkInvalid),
    InvalidSk(EcSkInvalid),
    /// The curve backend reported a failure that agreement never causes.
    Internal,
}

pub open spec fn pk_invalid_of(e: CurveFault) -> EcPkInvalid {
    EcPkInvalid {}
}

pub open spec fn sk_invalid_of(e: CurveFault) -> EcSkInvalid {
    EcSkInvalid {}
}

pub open spec fn ecdh_error_of(e: CurveFault) -> EcdhError {
    match e {
        CurveFault::WeakPublicKey => EcdhError::WeakPk,
        CurveFault::InvalidPublicKey | CurveFault::NonCanonical => EcdhError::InvalidPk(EcPkInvalid {}),
        CurveFault::InvalidSecretKey => EcdhError::InvalidSk(EcSkInvalid {}),
        _ => EcdhError::Internal,
    }
}

impl From<CurveFault> for EcPkInvalid {
    fn from(err: CurveFault) -> Self {
        EcPkInvalid {}
    }
}

impl vstd::std_specs::convert::FromSpecImpl<CurveFault> for EcPkInvalid {
    open spec fn obeys_from_spec() -> bool {
        true
    }

    open spec fn from_spec(v: CurveFault) -> Self {
        pk_invalid_of(v)
    }
}

impl From<CurveFault> for EcSkInvalid {
    fn from(err: CurveFault) -> Self {
        EcSkInvalid {}
    }
}

impl vstd::std_specs::convert::FromSpecImpl<CurveFault> for EcSkInvalid {
    open spec fn obeys_from_spec() -> bool {
        true
    }

    open spec fn from_spec(v: CurveFault) -> Self {
        sk_invalid_of(v)
    }
}

impl From<CurveFault> for EcdhError {
    fn from(err: CurveFault) -> Self {
        match err {
            CurveFault::WeakPublicKey => EcdhError::WeakPk,
            CurveFault::InvalidPublicKey | CurveFault::NonCanonical => EcdhError::InvalidPk(EcPkInvalid {}),
            CurveFault::InvalidSecretKey => EcdhError::InvalidSk(EcSkInvalid {}),
            CurveFault::SignatureMismatch
            | CurveFault::InvalidSignature
            | CurveFault::InvalidSeed
            | CurveFault::InvalidBlind
            | CurveFault::InvalidNoise
            | CurveFault::ParseError => EcdhError::Internal,
        }
    }
}

impl vstd::std_specs::convert::FromSpecImpl<CurveFault> for EcdhError {
    open spec fn obeys_from_spec() -> bool {
        true
    }

    open spec fn from_spec(v: CurveFault) -> Self {
        ecdh_error_of(v)
    }
}

impl From<EcPkInvalid> for EcdhError {
    fn from(err: EcPkInvalid) -> Self {
        EcdhError::InvalidPk(err)
    }
}

impl vstd::std_specs::convert::FromSpecImpl<EcPkInvalid> for EcdhError {
    open spec fn obeys_from_spec() -> bool {
        true
    }

    open spec fn from_spec(v: EcPkInvalid) -> Self {
        EcdhError::InvalidPk(v)
    }
}

impl From<EcSkInvalid> for EcdhError {
    fn from(err: EcSkInvalid) -> Self {
        EcdhError::InvalidSk(err)
    }
}

impl vstd::std_specs::convert::FromSpecImpl<EcSkInvalid> for EcdhError {
    open spec fn obeys_from_spec() -> bool {
        true
    }

    open spec fn from_spec(v: EcSkInvalid) -> Self {
        EcdhError::InvalidSk(v)
    }
}

/// The low-order points of Curve25519 that have a canonical encoding: the
/// points of order 1, 2, 4 and the two of order 8.
pub open spec fn low_order_point(i: int) -> Seq<u8> {
    if i == 0 {
        seq![0, 0, 0, 0, 0, 0, 0, 0, 0, 0, 0, 0, 0, 0, 0, 0, 0, 0, 0, 0, 0, 0, 0, 0, 0, 0, 0, 0, 0, 0, 0, 0]
    } else if i == 1 {
        seq![1, 0, 0, 0, 0, 0, 0, 0, 0, 0, 0, 0, 0, 0, 0, 0, 0, 0, 0, 0, 0, 0, 0, 0, 0, 0, 0, 0, 0, 0, 0, 0]
    } else if i == 2 {
        seq![236, 255, 255, 255, 255, 255, 255, 255, 255, 255, 255, 255, 255, 255, 255, 255, 255, 255, 255, 255, 255, 255, 255, 255, 255, 255, 255, 255, 255, 255, 255, 127]
    } else if i == 3 {
        seq![224, 235, 122, 124, 59, 65, 184, 174, 22, 86, 227, 250, 241, 159, 196, 106, 218, 9, 141, 235, 156, 50, 177, 253, 134, 98, 5, 22, 95, 73, 184, 0]
    } else {
        seq![95, 156, 149, 188, 163, 80, 140, 36, 177, 208, 177, 85, 156, 131, 239, 91, 4, 68, 92, 196, 88, 28, 142, 134, 216, 34, 78, 221, 208, 159, 17, 87]
    }
}

pub const N_LOW_ORDER: usize = 5;

/// The encoding with its top bit cleared: X25519 ignores that bit.
pub open spec fn mask_top_bit(b: Seq<u8>) -> Seq<u8> {
    b.update(31, b[31] & 0x7f)
}

/// One of the known low-order points, whatever the top bit.
pub open spec fn is_low_order(b: Seq<u8>) -> bool {
    exists|i: int| 0 <= i < N_LOW_ORDER && low_order_point(i) == mask_top_bit(b)
}

fn low_order_bytes(i: usize) -> (r: [u8; KEY_LEN])
    requires
        i < N_LOW_ORDER,
    ensures
        r@ == low_order_point(i as int),
{
    let r: [u8; KEY_LEN] = match i {
        0 => [0, 0, 0, 0, 0, 0, 0, 0, 0, 0, 0, 0, 0, 0, 0, 0, 0, 0, 0, 0, 0, 0, 0, 0, 0, 0, 0, 0, 0, 0, 0, 0],
        1 => [1, 0, 0, 0, 0, 0, 0, 0, 0, 0, 0, 0, 0, 0, 0, 0, 0, 0, 0, 0, 0, 0, 0, 0, 0, 0, 0, 0, 0, 0, 0, 0],
        2 => [236, 255, 255, 255, 255, 255, 255, 255, 255, 255, 255, 255, 255, 255, 255, 255, 255, 255, 255, 255, 255, 255, 255, 255, 255, 255, 255, 255, 255, 255, 255, 127],
        3 => [224, 235, 122, 124, 59, 65, 184, 174, 22, 86, 227, 250, 241, 159, 196, 106, 218, 9, 141, 235, 156, 50, 177, 253, 134, 98, 5, 22, 95, 73, 184, 0],
        _ => [95, 156, 149, 188, 163, 80, 140, 36, 177, 208, 177, 85, 156, 131, 239, 91, 4, 68, 92, 196, 88, 28, 142, 134, 216, 34, 78, 221, 208, 159, 17, 87],
    };
    assert(r@ =~= low_order_point(i as int));
    r
}

fn bytes_eq(a: &[u8; KEY_LEN], b: &[u8; KEY_LEN]) -> (r: bool)
    ensures
        r == (a@ == b@),
{
    let mut i: usize = 0;
    while i < KEY_LEN
        invariant
            i <= KEY_LEN,
            forall|j: int| 0 <= j < i ==> a@[j] == b@[j],
        decreases KEY_LEN - i,
    {
        if a[i] != b[i] {
            return false;
        }
        i = i + 1;
    }
    assert(a@ =~= b@);
    true
}

/// Whether the point is one of the known low-order points, whatever its
/// top bit.
pub fn is_weak_point(b: &[u8; KEY_LEN]) -> (r: bool)
    ensures
        r == is_low_order(b@),
{
    let mut m = *b;
    m[31] = m[31] & 0x7f;
    assert(m@ =~= mask_top_bit(b@));
    let mut i: usize = 0;
    while i < N_LOW_ORDER
        invariant
            i <= N_LOW_ORDER,
            m@ == mask_top_bit(b@),
            forall|j: int| 0 <= j < i ==> low_order_point(j) != mask_top_bit(b@),
        decreases N_LOW_ORDER - i,
    {
        let p = low_order_bytes(i);
        if bytes_eq(&p, &m) {
            return true;
        }
        i = i + 1;
    }
    false
}

/// Why a key could not be read from a serialized form.
#[derive(Clone, Debug, PartialEq, Eq)]
pub enum EcSerError {
    /// The key has this length, not the curve's.
    InvalidKeyLength(usize),
    InvalidKey(EcPkInvalid),
    /// The text encoding around the key is broken; the message says how.
    DataEncoding(String),
}

impl From<EcPkInvalid> for EcSerError {
    fn from(err: EcPkInvalid) -> Self {
        EcSerError::InvalidKey(err)
    }
}

impl vstd::std_specs::convert::FromSpecImpl<EcPkInvalid> for EcSerError {
    open spec fn obeys_from_spec() -> bool {
        true
    }

    open spec fn from_spec(v: EcPkInvalid) -> Self {
        EcSerError::InvalidKey(v)
    }
}

/// An elliptic-curve public key usable for agreement or signatures, with a
/// fixed-length compressed encoding.
pub trait EcPk: Sized {
    /// The compressed encoding of the key.
    spec fn pk_bytes(&self) -> Seq<u8>;

    /// The encodings from which a key can be built.
    spec fn valid_encoding(b: Seq<u8>) -> bool;

    /// The length of the encoding.
    spec fn encoding_len() -> nat;

    fn compressed_len() -> (r: usize)
        ensures
            r == Self::encoding_len(),
    ;

    /// The name of the curve.
    fn curve_name() -> (r: &'static str);

    fn base_point() -> (r: Self)
        ensures
            Self::valid_encoding(r.pk_bytes()),
    ;

    fn to_pk_compressed(&self) -> (r: Vec<u8>)
        ensures
            r@ == self.pk_bytes(),
            Self::valid_encoding(r@),
            r@.len() == Self::encoding_len(),
    ;

    fn from_pk_compressed_slice(slice: &[u8]) -> (r: Result<Self, EcPkInvalid>)
        ensures
            r is Ok <==> Self::valid_encoding(slice@),
            r is Ok ==> r->Ok_0.pk_bytes() == slice@,
    ;
}

/// An elliptic-curve secret key.
pub trait EcSk: Sized {
    type Pk: EcPk;

    /// The encoding of the public key that belongs to this secret key.
    spec fn public_bytes(&self) -> Seq<u8>;

    fn generate_keypair() -> (r: (Self, Self::Pk))
        ensures
            r.1.pk_bytes() == r.0.public_bytes(),
    ;

    /// Whether the secret is well formed, so that it has a public key.
    spec fn has_public(&self) -> bool;

    fn to_pk(&self) -> (r: Result<Self::Pk, EcSkInvalid>)
        ensures
            r is Ok <==> self.has_public(),
            r is Ok ==> r->Ok_0.pk_bytes() == self.public_bytes(),
    ;
}

/// Diffie-Hellman agreement between a secret key and a peer's public key.
pub trait Ecdh: EcSk {
    /// The shared secret of this key and a peer's public key encoding.
    spec fn shared_bytes(&self, pk: Seq<u8>) -> Seq<u8>;

    /// Peer keys that are refused as degenerate for this secret key.
    spec fn weak_for(&self, pk: Seq<u8>) -> bool;

    fn ecdh(&self, pk: &Self::Pk) -> (r: Result<[u8; KEY_LEN], EcdhError>)
        ensures
            self.weak_for(pk.pk_bytes()) ==> r == Err::<[u8; KEY_LEN], EcdhError>(EcdhError::WeakPk),
            !self.weak_for(pk.pk_bytes()) ==> r is Ok,
            r is Ok ==> r->Ok_0@ == self.shared_bytes(pk.pk_bytes()),
    ;
}

/// A signature scheme over arbitrary messages.
pub trait EcSign: EcSk {
    fn sign(&self, msg: &[u8]) -> (r: Vec<u8>);
}

/// An X25519 public key: a canonical 32-byte encoding of a point.
#[derive(Clone, Copy, Debug, PartialEq, Eq)]
pub struct PublicKey {
    bytes: [u8; KEY_LEN],
}

impl PublicKey {
    #[verifier::type_invariant]
    spec fn canonical(&self) -> bool {
        canonical_point(self.bytes@)
    }

    /// The key's 32 bytes.
    pub fn to_bytes(&self) -> (r: [u8; KEY_LEN])
        ensures
            r@ == self@,
            canonical_point(r@),
    {
        proof {
            use_type_invariant(self);
        }
        self.bytes
    }

    /// Builds a key from 32 bytes; fails on a non-canonical encoding.
    pub fn from_bytes(b: [u8; KEY_LEN]) -> (r: Result<PublicKey, EcPkInvalid>)
        ensures
            r is Ok <==> canonical_point(b@),
            r is Ok ==> r->Ok_0@ == b@,
    {
        match x25519_pk_from_slice(&b) {
            Ok(bytes) => Ok(PublicKey { bytes }),
            Err(e) => Err(EcPkInvalid::from(curve_fault(e))),
        }
    }

    /// Whether two keys have the same encoding.
    pub fn same_as(&self, other: &PublicKey) -> (r: bool)
        ensures
            r == (self@ == other@),
    {
        bytes_eq(&self.bytes, &other.bytes)
    }
}

impl View for PublicKey {
    type V = Seq<u8>;

    closed spec fn view(&self) -> Seq<u8> {
        self.bytes@
    }
}

impl EcPk for PublicKey {
    open spec fn pk_bytes(&self) -> Seq<u8> {
        self@
    }

    open spec fn valid_encoding(b: Seq<u8>) -> bool {
        canonical_point(b)
    }

    open spec fn encoding_len() -> nat {
        KEY_LEN as nat
    }

    fn compressed_len() -> (r: usize) {
        KEY_LEN
    }

    fn curve_name() -> (r: &'static str) {
        "Curve25519"
    }

    fn base_point() -> (r: Self) {
        let bytes: [u8; KEY_LEN] = [9, 0, 0, 0, 0, 0, 0, 0, 0, 0, 0, 0, 0, 0, 0, 0, 0, 0, 0, 0, 0, 0, 0, 0, 0, 0, 0, 0, 0, 0, 0, 0];
        assert(bytes@[31] == 0);
        PublicKey { bytes }
    }

    fn to_pk_compressed(&self) -> (r: Vec<u8>) {
        proof {
            use_type_invariant(self);
        }
        let mut v: Vec<u8> = Vec::new();
        let mut i: usize = 0;
        while i < KEY_LEN
            invariant
                i <= KEY_LEN,
                v@ =~= self.bytes@.subrange(0, i as int),
            decreases KEY_LEN - i,
        {
            v.push(self.bytes[i]);
            i = i + 1;
        }
        assert(v@ =~= self.bytes@);
        v
    }

    fn from_pk_compressed_slice(slice: &[u8]) -> (r: Result<Self, EcPkInvalid>) {
        match x25519_pk_from_slice(slice) {
            Ok(bytes) => Ok(PublicKey { bytes }),
            Err(e) => Err(EcPkInvalid::from(curve_fault(e))),
        }
    }
}

/// An X25519 secret scalar.
#[derive(Clone)]
pub struct SecretKey {
    bytes: [u8; KEY_LEN],
}

impl View for SecretKey {
    type V = Seq<u8>;

    closed spec fn view(&self) -> Seq<u8> {
        self.bytes@
    }
}

impl SecretKey {
    /// A secret key holding these 32 bytes.
    pub fn from_bytes(bytes: [u8; KEY_LEN]) -> (r: SecretKey)
        ensures
            r@ == bytes@,
    {
        SecretKey { bytes }
    }

    /// The key's 32 bytes.
    pub fn to_bytes(&self) -> (r: [u8; KEY_LEN])
        ensures
            r@ == self@,
    {
        self.bytes
    }
}

impl Drop for SecretKey {
    /// Scrubs the secret scalar.
    fn drop(&mut self)
        opens_invariants none
        no_unwind
    {
        wipe(&mut self.bytes);
    }
}

impl EcSk for SecretKey {
    type Pk = PublicKey;

    open spec fn public_bytes(&self) -> Seq<u8> {
        public_of(self@)
    }

    open spec fn has_public(&self) -> bool {
        true
    }

    fn generate_keypair() -> (r: (Self, PublicKey)) {
        let (sk, pk) = x25519_generate();
        (SecretKey { bytes: sk }, PublicKey { bytes: pk })
    }

    fn to_pk(&self) -> (r: Result<PublicKey, EcSkInvalid>) {
        match x25519_public(&self.bytes) {
            Ok(bytes) => Ok(PublicKey { bytes }),
            Err(e) => Err(EcSkInvalid::from(curve_fault(e))),
        }
    }
}

impl Ecdh for SecretKey {
    open spec fn shared_bytes(&self, pk: Seq<u8>) -> Seq<u8> {
        dh_of(self@, pk)
    }

    open spec fn weak_for(&self, pk: Seq<u8>) -> bool {
        is_low_order(pk) || dh_of(self@, pk) == zero_point()
    }

    fn ecdh(&self, pk: &PublicKey) -> (r: Result<[u8; KEY_LEN], EcdhError>) {
        if is_weak_point(&pk.bytes) {
            return Err(EcdhError::WeakPk);
        }
        match x25519_dh(&self.bytes, &pk.bytes) {
            Ok(shared) => Ok(shared),
            Err(_) => Err(EcdhError::WeakPk),
        }
    }
}

/// The key that parsing an encoding gives: the same bytes, when canonical.
pub open spec fn decode_pk(b: Seq<u8>) -> Option<Seq<u8>> {
    if canonical_point(b) {
        Some(b)
    } else {
        None
    }
}

/// Round trip: when `pk` is the public key of `sk` (as `generate_keypair`
/// and `to_pk` give it), the compressed encoding of `pk` parses back to the
/// public key of `sk`.
pub proof fn lemma_public_key_round_trip(sk: SecretKey, pk: PublicKey)
    requires
        pk.pk_bytes() == sk.public_bytes(),
        PublicKey::valid_encoding(pk.pk_bytes()),
    ensures
        decode_pk(pk.pk_bytes()) == Some(sk.public_bytes()),
{
}

} // verus!
