//! The three-message Noise XK handshake and the transport transcoder that
//! it turns into once complete.
//!
//! ```text
//!   <- s
//!   ...
//!   -> e, es
//!   <- e, ee
//!   -> s, se
//! ```

use vstd::prelude::*;
use vstd::slice::slice_subrange;
use crate::ec::{is_low_order, EcPkInvalid, EcPk, EcSk, Ecdh, EcdhError, PublicKey, SecretKey};
use crate::noise::{
    advance, concat, encrypt_spec, exhausted,
    decrypt_and_hash_spec, encrypt_and_hash_spec, initial_symmetric, mix_hash_spec,
    mix_key_spec, opens_to, split_spec, CipherModel, CipherState, NoiseError, SymmetricModel,
    SymmetricState, MAX_PAYLOAD,
};
use crate::primitives::{zero_point, canonical_point, dh_of, seal_of, public_of, AEAD_MAX_LEN, KEY_LEN, TAG_LEN};

verus! {

/// Where a handshake stands: which message it sends or awaits next.
#[derive(Clone, Copy, Debug, PartialEq, Eq, Structural)]
pub enum XkStep {
    SendMessage1,
    AwaitMessage1,
    AwaitMessage2,
    SendMessage2,
    SendMessage3,
    AwaitMessage3,
    Complete,
    /// A step failed; the session is over.
    Failed,
}

/// What a handshake state holds: its role and step, the local static and
/// ephemeral secrets, the remote keys learnt so far, the symmetric state,
/// and the two transport cipher states (keyless until completion).
pub struct XkModel {
    pub initiator: bool,
    pub step: XkStep,
    pub s: Seq<u8>,
    pub e: Seq<u8>,
    pub rs: Option<Seq<u8>>,
    pub re: Option<Seq<u8>>,
    pub sym: SymmetricModel,
    pub send: CipherModel,
    pub recv: CipherModel,
}

pub open spec fn keyless() -> CipherModel {
    CipherModel { key: None, nonce: 0 }
}

/// The symmetric state after the empty prologue and the responder's static
/// key have been mixed in.
pub open spec fn premessage(rs: Seq<u8>) -> SymmetricModel {
    mix_hash_spec(mix_hash_spec(initial_symmetric(), Seq::<u8>::empty()), rs)
}

pub open spec fn initiator_start(s: Seq<u8>, e: Seq<u8>, rs: Seq<u8>) -> XkModel {
    XkModel {
        initiator: true, step: XkStep::SendMessage1, s, e, rs: Some(rs), re: None,
        sym: premessage(rs), send: keyless(), recv: keyless(),
    }
}

pub open spec fn responder_start(s: Seq<u8>, e: Seq<u8>) -> XkModel {
    XkModel {
        initiator: false, step: XkStep::AwaitMessage1, s, e, rs: None, re: None,
        sym: premessage(public_of(s)), send: keyless(), recv: keyless(),
    }
}

pub open spec fn with_step(m: XkModel, step: XkStep, sym: SymmetricModel) -> XkModel {
    XkModel { step, sym, ..m }
}

/// Mixes a transmitted public key into the hash, then a shared secret into
/// the chaining key.
pub open spec fn after_dh(sym: SymmetricModel, key: Seq<u8>, shared: Seq<u8>) -> SymmetricModel {
    mix_key_spec(mix_hash_spec(sym, key), shared)
}

/// The first message and the initiator's state after writing it.
pub open spec fn write1(m: XkModel, payload: Seq<u8>) -> (XkModel, Seq<u8>) {
    let e_pub = public_of(m.e);
    let sealed = encrypt_and_hash_spec(after_dh(m.sym, e_pub, dh_of(m.e, m.rs->Some_0)), payload)->Some_0;
    (with_step(m, XkStep::AwaitMessage2, sealed.0), e_pub + sealed.1)
}

/// The responder's symmetric state after the key part of the first message.
pub open spec fn read1_mid(m: XkModel, msg: Seq<u8>) -> SymmetricModel {
    let re = msg.subrange(0, KEY_LEN as int);
    after_dh(m.sym, re, dh_of(m.s, re))
}

/// The responder's state after reading the first message.
pub open spec fn read1(m: XkModel, msg: Seq<u8>) -> XkModel {
    XkModel {
        re: Some(msg.subrange(0, KEY_LEN as int)),
        ..with_step(m, XkStep::SendMessage2, decrypt_and_hash_spec(read1_mid(m, msg), msg.subrange(KEY_LEN as int, msg.len() as int)))
    }
}

/// The second message and the responder's state after writing it.
pub open spec fn write2(m: XkModel, payload: Seq<u8>) -> (XkModel, Seq<u8>) {
    let e_pub = public_of(m.e);
    let sealed = encrypt_and_hash_spec(after_dh(m.sym, e_pub, dh_of(m.e, m.re->Some_0)), payload)->Some_0;
    (with_step(m, XkStep::AwaitMessage3, sealed.0), e_pub + sealed.1)
}

/// The initiator's symmetric state after the key part of the second message.
pub open spec fn read2_mid(m: XkModel, msg: Seq<u8>) -> SymmetricModel {
    let re = msg.subrange(0, KEY_LEN as int);
    after_dh(m.sym, re, dh_of(m.e, re))
}

/// The initiator's state after reading the second message.
pub open spec fn read2(m: XkModel, msg: Seq<u8>) -> XkModel {
    XkModel {
        re: Some(msg.subrange(0, KEY_LEN as int)),
        ..with_step(m, XkStep::SendMessage3, decrypt_and_hash_spec(read2_mid(m, msg), msg.subrange(KEY_LEN as int, msg.len() as int)))
    }
}

/// The symmetric state of the initiator before it seals the third payload.
pub open spec fn write3_mid(m: XkModel) -> SymmetricModel {
    let sealed_s = encrypt_and_hash_spec(m.sym, public_of(m.s))->Some_0;
    mix_key_spec(sealed_s.0, dh_of(m.s, m.re->Some_0))
}

/// The third message and the initiator's completed state: it sends with the
/// first transport key and receives with the second; the ephemeral secret,
/// now mixed in, is replaced by zeros.
pub open spec fn write3(m: XkModel, payload: Seq<u8>) -> (XkModel, Seq<u8>) {
    let sealed_s = encrypt_and_hash_spec(m.sym, public_of(m.s))->Some_0;
    let sealed = encrypt_and_hash_spec(write3_mid(m), payload)->Some_0;
    let keys = split_spec(sealed.0);
    (XkModel {
        e: zero_point(),
        send: CipherModel { key: Some(keys.0), nonce: 0 },
        recv: CipherModel { key: Some(keys.1), nonce: 0 },
        ..with_step(m, XkStep::Complete, sealed.0)
    }, sealed_s.1 + sealed.1)
}

/// Length of the sealed static key at the head of the third message.
pub const SEALED_KEY_LEN: usize = 48;

/// The responder's symmetric state after it decrypted the initiator's static
/// key `rs` and mixed in the `se` agreement.
pub open spec fn read3_mid(m: XkModel, msg: Seq<u8>, rs: Seq<u8>) -> SymmetricModel {
    mix_key_spec(decrypt_and_hash_spec(m.sym, msg.subrange(0, SEALED_KEY_LEN as int)), dh_of(m.e, rs))
}

/// The responder's completed state after reading the third message, whose
/// sealed key opened to `rs`: it sends with the second transport key; the
/// ephemeral secret is replaced by zeros.
pub open spec fn read3(m: XkModel, msg: Seq<u8>, rs: Seq<u8>) -> XkModel {
    let sym = decrypt_and_hash_spec(read3_mid(m, msg, rs), msg.subrange(SEALED_KEY_LEN as int, msg.len() as int));
    let keys = split_spec(sym);
    XkModel {
        rs: Some(rs),
        e: zero_point(),
        send: CipherModel { key: Some(keys.1), nonce: 0 },
        recv: CipherModel { key: Some(keys.0), nonce: 0 },
        ..with_step(m, XkStep::Complete, sym)
    }
}

/// The state of one side of an XK handshake, and of the session after it.
pub struct NoiseXkState {
    initiator: bool,
    step: XkStep,
    local_key: SecretKey,
    ephemeral_key: SecretKey,
    remote_static: Option<PublicKey>,
    remote_ephemeral: Option<PublicKey>,
    sym: SymmetricState,
    send: CipherState,
    recv: CipherState,
}

pub open spec fn key_view(k: Option<PublicKey>) -> Option<Seq<u8>> {
    match k {
        Some(pk) => Some(pk@),
        None => None,
    }
}

impl View for NoiseXkState {
    type V = XkModel;

    closed spec fn view(&self) -> XkModel {
        XkModel {
            initiator: self.initiator,
            step: self.step,
            s: self.local_key@,
            e: self.ephemeral_key@,
            rs: key_view(self.remote_static),
            re: key_view(self.remote_ephemeral),
            sym: self.sym@,
            send: self.send@,
            recv: self.recv@,
        }
    }
}

impl NoiseXkState {
    /// An initiator that knows the responder's static key `remote_key` and
    /// will use `ephemeral_key` for this session.
    pub fn new_initiator(local_key: SecretKey, remote_key: PublicKey, ephemeral_key: SecretKey) -> (r: NoiseXkState)
        ensures
            r@ == initiator_start(local_key@, ephemeral_key@, remote_key@),
    {
        let mut sym = SymmetricState::initialize();
        let prologue: [u8; 0] = [];
        sym.mix_hash(&prologue);
        assert(prologue@ =~= Seq::<u8>::empty());
        let rs = remote_key.to_bytes();
        sym.mix_hash(&rs);
        NoiseXkState {
            initiator: true,
            step: XkStep::SendMessage1,
            local_key,
            ephemeral_key,
            remote_static: Some(remote_key),
            remote_ephemeral: None,
            sym,
            send: CipherState::empty(),
            recv: CipherState::empty(),
        }
    }

    /// A responder with static key `local_key` that will use `ephemeral_key`
    /// for this session; it awaits the first message.
    pub fn new_responder(local_key: SecretKey, ephemeral_key: SecretKey) -> (r: NoiseXkState)
        ensures
            r@ == responder_start(local_key@, ephemeral_key@),
    {
        let mut sym = SymmetricState::initialize();
        let prologue: [u8; 0] = [];
        sym.mix_hash(&prologue);
        assert(prologue@ =~= Seq::<u8>::empty());
        let step = match local_key.to_pk() {
            Ok(pk) => {
                let s_pub = pk.to_bytes();
                sym.mix_hash(&s_pub);
                XkStep::AwaitMessage1
            },
            Err(_) => XkStep::Failed,
        };
        NoiseXkState {
            initiator: false,
            step,
            local_key,
            ephemeral_key,
            remote_static: None,
            remote_ephemeral: None,
            sym,
            send: CipherState::empty(),
            recv: CipherState::empty(),
        }
    }

    /// The step the handshake stands at.
    pub fn step(&self) -> (r: XkStep)
        ensures
            r == self@.step,
    {
        self.step
    }

    /// Whether this side started the handshake.
    pub fn is_initiator(&self) -> (r: bool)
        ensures
            r == self@.initiator,
    {
        self.initiator
    }

    /// The responder's static key, once known.
    pub fn remote_static_key(&self) -> (r: Option<PublicKey>)
        ensures
            key_view(r) == self@.rs,
    {
        self.remote_static
    }
}

/// Whether a handshake at `step` sends the next message.
pub open spec fn sends_next(step: XkStep) -> bool {
    step == XkStep::SendMessage1 || step == XkStep::SendMessage2 || step == XkStep::SendMessage3
}

/// Whether a handshake at `step` awaits the next message.
pub open spec fn awaits_next(step: XkStep) -> bool {
    step == XkStep::AwaitMessage1 || step == XkStep::AwaitMessage2 || step == XkStep::AwaitMessage3
}

/// The shortest handshake message that can be read at a step.
pub open spec fn min_len(step: XkStep) -> nat {
    if step == XkStep::AwaitMessage3 {
        (SEALED_KEY_LEN + TAG_LEN) as nat
    } else {
        (KEY_LEN + TAG_LEN) as nat
    }
}

/// The ephemeral key at the head of a first or second message.
pub open spec fn head_key(msg: Seq<u8>) -> Seq<u8> {
    msg.subrange(0, KEY_LEN as int)
}

/// The local secret that agrees with the key at the head of a first or
/// second message: the responder's static key, the initiator's ephemeral key.
pub open spec fn read_secret(m: XkModel) -> Seq<u8> {
    if m.step == XkStep::AwaitMessage1 {
        m.s
    } else {
        m.e
    }
}

/// The key at the head of a first or second message is usable: canonical,
/// not low-order, and its agreement with the local secret is not zero.
pub open spec fn head_key_usable(m: XkModel, msg: Seq<u8>) -> bool {
    &&& msg.len() >= KEY_LEN + TAG_LEN
    &&& canonical_point(head_key(msg))
    &&& !is_low_order(head_key(msg))
    &&& dh_of(read_secret(m), head_key(msg)) != zero_point()
}

/// A sealed static key `rs` of a third message is usable: canonical, not
/// low-order, and its agreement with the responder's ephemeral key is not zero.
pub open spec fn static_key_usable(m: XkModel, msg: Seq<u8>, rs: Seq<u8>) -> bool {
    &&& opens_to(m.sym.cipher, m.sym.h, msg.subrange(0, SEALED_KEY_LEN as int), rs)
    &&& canonical_point(rs)
    &&& !is_low_order(rs)
    &&& dh_of(m.e, rs) != zero_point()
}

/// The state that reading `msg` leads to, the symmetric state under which its
/// payload is opened, and the payload ciphertext, for the first two messages.
pub open spec fn read_outcome(m: XkModel, msg: Seq<u8>) -> (XkModel, SymmetricModel, Seq<u8>) {
    if m.step == XkStep::AwaitMessage1 {
        (read1(m, msg), read1_mid(m, msg), msg.subrange(KEY_LEN as int, msg.len() as int))
    } else {
        (read2(m, msg), read2_mid(m, msg), msg.subrange(KEY_LEN as int, msg.len() as int))
    }
}

impl NoiseXkState {
    /// Drops the ephemeral secret, which scrubs it, and keeps zeros.
    fn discard_ephemeral(&mut self)
        ensures
            final(self)@ == (XkModel { e: zero_point(), ..old(self)@ }),
    {
        let zeros: [u8; KEY_LEN] = [0u8; KEY_LEN];
        assert(zeros@ =~= zero_point());
        self.ephemeral_key = SecretKey::from_bytes(zeros);
    }

    fn fail(&mut self)
        ensures
            final(self)@ == (XkModel { step: XkStep::Failed, ..old(self)@ }),
    {
        self.step = XkStep::Failed;
    }

    fn write_first(&mut self, payload: &[u8]) -> (r: Result<Vec<u8>, NoiseError>)
        requires
            old(self)@.step == XkStep::SendMessage1,
            payload@.len() <= MAX_PAYLOAD,
        ensures
            r is Ok ==> old(self)@.rs is Some && (final(self)@, r->Ok_0@) == write1(old(self)@, payload@),
            r is Err ==> final(self)@.step == XkStep::Failed,
            old(self)@.rs matches Some(rs) && is_low_order(rs)
                ==> r == Err::<Vec<u8>, NoiseError>(NoiseError::Ecdh(EcdhError::WeakPk)),
            old(self)@.rs is Some && !is_low_order(old(self)@.rs->Some_0)
                && dh_of(old(self)@.e, old(self)@.rs->Some_0) != zero_point() ==> r is Ok,
            r is Ok ==> r->Ok_0@.len() == KEY_LEN + payload@.len() + TAG_LEN,
    {
        let rs = match self.remote_static {
            Some(k) => k,
            None => {
                self.fail();
                return Err(NoiseError::OutOfOrder);
            },
        };
        let shared = match self.ephemeral_key.ecdh(&rs) {
            Ok(x) => x,
            Err(err) => {
                self.fail();
                return Err(NoiseError::Ecdh(err));
            },
        };
        let e_pub = match self.ephemeral_key.to_pk() {
            Ok(pk) => pk.to_bytes(),
            Err(err) => {
                self.fail();
                return Err(NoiseError::Ecdh(EcdhError::InvalidSk(err)));
            },
        };
        self.sym.mix_hash(&e_pub);
        self.sym.mix_key(&shared);
        let c = match self.sym.encrypt_and_hash(payload) {
            Ok(c) => c,
            Err(err) => {
                self.fail();
                return Err(err);
            },
        };
        let msg = concat(&e_pub, c.as_slice());
        self.step = XkStep::AwaitMessage2;
        Ok(msg)
    }

    fn write_second(&mut self, payload: &[u8]) -> (r: Result<Vec<u8>, NoiseError>)
        requires
            old(self)@.step == XkStep::SendMessage2,
            payload@.len() <= MAX_PAYLOAD,
        ensures
            r is Ok ==> old(self)@.re is Some && (final(self)@, r->Ok_0@) == write2(old(self)@, payload@),
            r is Err ==> final(self)@.step == XkStep::Failed,
            old(self)@.re matches Some(re) && is_low_order(re)
                ==> r == Err::<Vec<u8>, NoiseError>(NoiseError::Ecdh(EcdhError::WeakPk)),
            old(self)@.re is Some && !is_low_order(old(self)@.re->Some_0)
                && dh_of(old(self)@.e, old(self)@.re->Some_0) != zero_point() ==> r is Ok,
            r is Ok ==> r->Ok_0@.len() == KEY_LEN + payload@.len() + TAG_LEN,
    {
        let re = match self.remote_ephemeral {
            Some(k) => k,
            None => {
                self.fail();
                return Err(NoiseError::OutOfOrder);
            },
        };
        let shared = match self.ephemeral_key.ecdh(&re) {
            Ok(x) => x,
            Err(err) => {
                self.fail();
                return Err(NoiseError::Ecdh(err));
            },
        };
        let e_pub = match self.ephemeral_key.to_pk() {
            Ok(pk) => pk.to_bytes(),
            Err(err) => {
                self.fail();
                return Err(NoiseError::Ecdh(EcdhError::InvalidSk(err)));
            },
        };
        self.sym.mix_hash(&e_pub);
        self.sym.mix_key(&shared);
        let c = match self.sym.encrypt_and_hash(payload) {
            Ok(c) => c,
            Err(err) => {
                self.fail();
                return Err(err);
            },
        };
        let msg = concat(&e_pub, c.as_slice());
        self.step = XkStep::AwaitMessage3;
        Ok(msg)
    }

    fn write_third(&mut self, payload: &[u8]) -> (r: Result<Vec<u8>, NoiseError>)
        requires
            old(self)@.step == XkStep::SendMessage3,
            payload@.len() <= MAX_PAYLOAD,
        ensures
            r is Ok ==> old(self)@.re is Some && (final(self)@, r->Ok_0@) == write3(old(self)@, payload@),
            r is Err ==> final(self)@.step == XkStep::Failed,
            old(self)@.re matches Some(re) && is_low_order(re)
                ==> r == Err::<Vec<u8>, NoiseError>(NoiseError::Ecdh(EcdhError::WeakPk)),
            old(self)@.re is Some && !is_low_order(old(self)@.re->Some_0)
                && dh_of(old(self)@.s, old(self)@.re->Some_0) != zero_point()
                && !exhausted(old(self)@.sym.cipher) ==> r is Ok,
            r is Ok && old(self)@.sym.cipher.key is Some
                ==> r->Ok_0@.len() == SEALED_KEY_LEN + payload@.len() + TAG_LEN,
    {
        let re = match self.remote_ephemeral {
            Some(k) => k,
            None => {
                self.fail();
                return Err(NoiseError::OutOfOrder);
            },
        };
        let shared = match self.local_key.ecdh(&re) {
            Ok(x) => x,
            Err(err) => {
                self.fail();
                return Err(NoiseError::Ecdh(err));
            },
        };
        let s_pub = match self.local_key.to_pk() {
            Ok(pk) => pk.to_bytes(),
            Err(err) => {
                self.fail();
                return Err(NoiseError::Ecdh(EcdhError::InvalidSk(err)));
            },
        };
        let c1 = match self.sym.encrypt_and_hash(&s_pub) {
            Ok(c) => c,
            Err(err) => {
                self.fail();
                return Err(err);
            },
        };
        self.sym.mix_key(&shared);
        let c2 = match self.sym.encrypt_and_hash(payload) {
            Ok(c) => c,
            Err(err) => {
                self.fail();
                return Err(err);
            },
        };
        let (k1, k2) = self.sym.split();
        self.discard_ephemeral();
        self.send = k1;
        self.recv = k2;
        self.step = XkStep::Complete;
        Ok(concat(c1.as_slice(), c2.as_slice()))
    }
}

impl NoiseXkState {
    /// Reads a first or second message: an ephemeral key, then the sealed
    /// payload. The responder agrees with its static key, the initiator with
    /// its ephemeral key.
    fn read_ephemeral(&mut self, msg: &[u8]) -> (r: Result<Vec<u8>, NoiseError>)
        requires
            old(self)@.step == XkStep::AwaitMessage1 || old(self)@.step == XkStep::AwaitMessage2,
            msg@.len() < AEAD_MAX_LEN,
        ensures
            msg@.len() < KEY_LEN + TAG_LEN ==> r == Err::<Vec<u8>, NoiseError>(NoiseError::InvalidMessageLength),
            msg@.len() >= KEY_LEN + TAG_LEN && !canonical_point(head_key(msg@))
                ==> r == Err::<Vec<u8>, NoiseError>(NoiseError::Ecdh(EcdhError::InvalidPk(EcPkInvalid {}))),
            msg@.len() >= KEY_LEN + TAG_LEN && canonical_point(head_key(msg@)) && is_low_order(head_key(msg@))
                ==> r == Err::<Vec<u8>, NoiseError>(NoiseError::Ecdh(EcdhError::WeakPk)),
            r is Ok ==> ({
                let (next, mid, ct) = read_outcome(old(self)@, msg@);
                final(self)@ == next && opens_to(mid.cipher, mid.h, ct, r->Ok_0@)
                    && forall|q: Seq<u8>| opens_to(mid.cipher, mid.h, ct, q) ==> q == r->Ok_0@
            }),
            r == Err::<Vec<u8>, NoiseError>(NoiseError::AuthenticationFailed) ==> ({
                let (next, mid, ct) = read_outcome(old(self)@, msg@);
                forall|q: Seq<u8>| !opens_to(mid.cipher, mid.h, ct, q)
            }),
            r is Err ==> final(self)@.step == XkStep::Failed,
            head_key_usable(old(self)@, msg@) ==> ({
                let (next, mid, ct) = read_outcome(old(self)@, msg@);
                &&& (r is Ok <==> exists|q: Seq<u8>| opens_to(mid.cipher, mid.h, ct, q))
                &&& (r == Err::<Vec<u8>, NoiseError>(NoiseError::AuthenticationFailed)
                    <==> forall|q: Seq<u8>| !opens_to(mid.cipher, mid.h, ct, q))
            }),
    {
        let ghost start = self@;
        if msg.len() < KEY_LEN + TAG_LEN {
            self.fail();
            return Err(NoiseError::InvalidMessageLength);
        }
        let head = slice_subrange(msg, 0, KEY_LEN);
        let re = match PublicKey::from_pk_compressed_slice(head) {
            Ok(k) => k,
            Err(err) => {
                self.fail();
                return Err(NoiseError::Ecdh(EcdhError::InvalidPk(err)));
            },
        };
        let agreed = if self.step == XkStep::AwaitMessage1 {
            self.local_key.ecdh(&re)
        } else {
            self.ephemeral_key.ecdh(&re)
        };
        let shared = match agreed {
            Ok(x) => x,
            Err(err) => {
                self.fail();
                return Err(NoiseError::Ecdh(err));
            },
        };
        let re_bytes = re.to_bytes();
        self.sym.mix_hash(&re_bytes);
        self.sym.mix_key(&shared);
        let rest = slice_subrange(msg, KEY_LEN, msg.len());
        assert(self.sym@ == read_outcome(start, msg@).1);
        assert(rest@ == read_outcome(start, msg@).2);
        let payload = match self.sym.decrypt_and_hash(rest) {
            Ok(p) => p,
            Err(err) => {
                self.fail();
                return Err(err);
            },
        };
        self.remote_ephemeral = Some(re);
        self.step = if self.step == XkStep::AwaitMessage1 {
            XkStep::SendMessage2
        } else {
            XkStep::SendMessage3
        };
        Ok(payload)
    }

    /// Reads the third message: the initiator's sealed static key, then the
    /// sealed payload; on success the transport keys are derived.
    fn read_third(&mut self, msg: &[u8]) -> (r: Result<Vec<u8>, NoiseError>)
        requires
            old(self)@.step == XkStep::AwaitMessage3,
            msg@.len() < AEAD_MAX_LEN,
        ensures
            msg@.len() < SEALED_KEY_LEN + TAG_LEN ==> r == Err::<Vec<u8>, NoiseError>(NoiseError::InvalidMessageLength),
            r is Ok ==> final(self)@.rs is Some && ({
                let rs = final(self)@.rs->Some_0;
                let sealed_key = msg@.subrange(0, SEALED_KEY_LEN as int);
                let mid = read3_mid(old(self)@, msg@, rs);
                let ct = msg@.subrange(SEALED_KEY_LEN as int, msg@.len() as int);
                opens_to(old(self)@.sym.cipher, old(self)@.sym.h, sealed_key, rs)
                    && (forall|q: Seq<u8>| opens_to(old(self)@.sym.cipher, old(self)@.sym.h, sealed_key, q) ==> q == rs)
                    && final(self)@ == read3(old(self)@, msg@, rs)
                    && opens_to(mid.cipher, mid.h, ct, r->Ok_0@)
                    && forall|q: Seq<u8>| opens_to(mid.cipher, mid.h, ct, q) ==> q == r->Ok_0@
            }),
            r is Err ==> final(self)@.step == XkStep::Failed,
            msg@.len() >= SEALED_KEY_LEN + TAG_LEN && !exhausted(old(self)@.sym.cipher)
                && (forall|q: Seq<u8>| !opens_to(old(self)@.sym.cipher, old(self)@.sym.h, msg@.subrange(0, SEALED_KEY_LEN as int), q))
                ==> r == Err::<Vec<u8>, NoiseError>(NoiseError::AuthenticationFailed),
            forall|rs: Seq<u8>| msg@.len() >= SEALED_KEY_LEN + TAG_LEN && !exhausted(old(self)@.sym.cipher)
                && #[trigger] static_key_usable(old(self)@, msg@, rs) ==> ({
                let mid = read3_mid(old(self)@, msg@, rs);
                let ct = msg@.subrange(SEALED_KEY_LEN as int, msg@.len() as int);
                &&& (r is Ok <==> exists|q: Seq<u8>| opens_to(mid.cipher, mid.h, ct, q))
                &&& (r == Err::<Vec<u8>, NoiseError>(NoiseError::AuthenticationFailed)
                    <==> forall|q: Seq<u8>| !opens_to(mid.cipher, mid.h, ct, q))
            }),
    {
        if msg.len() < SEALED_KEY_LEN + TAG_LEN {
            self.fail();
            return Err(NoiseError::InvalidMessageLength);
        }
        let sealed_key = slice_subrange(msg, 0, SEALED_KEY_LEN);
        let s_bytes = match self.sym.decrypt_and_hash(sealed_key) {
            Ok(p) => p,
            Err(err) => {
                self.fail();
                return Err(err);
            },
        };
        let rs = match PublicKey::from_pk_compressed_slice(s_bytes.as_slice()) {
            Ok(k) => k,
            Err(err) => {
                self.fail();
                return Err(NoiseError::Ecdh(EcdhError::InvalidPk(err)));
            },
        };
        let shared = match self.ephemeral_key.ecdh(&rs) {
            Ok(x) => x,
            Err(err) => {
                self.fail();
                return Err(NoiseError::Ecdh(err));
            },
        };
        self.sym.mix_key(&shared);
        let rest = slice_subrange(msg, SEALED_KEY_LEN, msg.len());
        let payload = match self.sym.decrypt_and_hash(rest) {
            Ok(p) => p,
            Err(err) => {
                self.fail();
                return Err(err);
            },
        };
        let (k1, k2) = self.sym.split();
        self.discard_ephemeral();
        self.remote_static = Some(rs);
        self.send = k2;
        self.recv = k1;
        self.step = XkStep::Complete;
        Ok(payload)
    }
}

/// A session over the XK handshake: it drives the handshake, then encrypts
/// and decrypts transport messages with the keys that the handshake yields.
pub struct NoiseTranscoder {
    state: NoiseXkState,
}

impl View for NoiseTranscoder {
    type V = XkModel;

    closed spec fn view(&self) -> XkModel {
        self.state@
    }
}

impl NoiseTranscoder {
    /// An initiator session towards the responder whose static key is
    /// `remote_key`, with a freshly generated ephemeral key.
    pub fn with_xk_initiator(local_key: SecretKey, remote_key: PublicKey) -> (r: Self)
        ensures
            r@ == initiator_start(local_key@, r@.e, remote_key@),
    {
        let (ephemeral_key, _) = SecretKey::generate_keypair();
        let state = NoiseXkState::new_initiator(local_key, remote_key, ephemeral_key);
        NoiseTranscoder { state }
    }

    /// A responder session with a freshly generated ephemeral key; it awaits
    /// the first message.
    pub fn with_xk_responder(local_key: SecretKey) -> (r: Self)
        ensures
            r@ == responder_start(local_key@, r@.e),
    {
        let (ephemeral_key, _) = SecretKey::generate_keypair();
        let state = NoiseXkState::new_responder(local_key, ephemeral_key);
        NoiseTranscoder { state }
    }

    /// A session over a handshake state built by the caller.
    pub fn with_state(state: NoiseXkState) -> (r: Self)
        ensures
            r@ == state@,
    {
        NoiseTranscoder { state }
    }

    /// The handshake state.
    pub fn state(&self) -> (r: &NoiseXkState)
        ensures
            r@ == self@,
    {
        &self.state
    }

    /// The step the handshake stands at.
    pub fn step(&self) -> (r: XkStep)
        ensures
            r == self@.step,
    {
        self.state.step
    }

    /// The transcript hash so far; once complete, both sides hold the same.
    pub fn handshake_hash(&self) -> (r: [u8; KEY_LEN])
        ensures
            r@ == self@.sym.h,
    {
        self.state.sym.handshake_hash()
    }

    /// Whether the handshake has completed and transport may begin.
    pub fn is_complete(&self) -> (r: bool)
        ensures
            r == (self@.step == XkStep::Complete),
    {
        self.state.step == XkStep::Complete
    }

    /// Writes the next handshake message, carrying `payload`.
    pub fn write_message(&mut self, payload: &[u8]) -> (r: Result<Vec<u8>, NoiseError>)
        requires
            payload@.len() <= MAX_PAYLOAD,
        ensures
            !sends_next(old(self)@.step)
                ==> r == Err::<Vec<u8>, NoiseError>(NoiseError::OutOfOrder) && final(self)@ == old(self)@,
            old(self)@.step == XkStep::SendMessage1 && r is Ok
                ==> (final(self)@, r->Ok_0@) == write1(old(self)@, payload@),
            old(self)@.step == XkStep::SendMessage2 && r is Ok
                ==> (final(self)@, r->Ok_0@) == write2(old(self)@, payload@),
            old(self)@.step == XkStep::SendMessage3 && r is Ok
                ==> (final(self)@, r->Ok_0@) == write3(old(self)@, payload@),
            sends_next(old(self)@.step) && r is Err ==> final(self)@.step == XkStep::Failed,
            old(self)@.step == XkStep::SendMessage1 && old(self)@.rs is Some && is_low_order(old(self)@.rs->Some_0)
                ==> r == Err::<Vec<u8>, NoiseError>(NoiseError::Ecdh(EcdhError::WeakPk)),
            (old(self)@.step == XkStep::SendMessage2 || old(self)@.step == XkStep::SendMessage3)
                && old(self)@.re is Some && is_low_order(old(self)@.re->Some_0)
                ==> r == Err::<Vec<u8>, NoiseError>(NoiseError::Ecdh(EcdhError::WeakPk)),
            old(self)@.step == XkStep::SendMessage1 && old(self)@.rs is Some && !is_low_order(old(self)@.rs->Some_0)
                && dh_of(old(self)@.e, old(self)@.rs->Some_0) != zero_point() ==> r is Ok,
            old(self)@.step == XkStep::SendMessage2 && old(self)@.re is Some && !is_low_order(old(self)@.re->Some_0)
                && dh_of(old(self)@.e, old(self)@.re->Some_0) != zero_point() ==> r is Ok,
            old(self)@.step == XkStep::SendMessage3 && old(self)@.re is Some && !is_low_order(old(self)@.re->Some_0)
                && dh_of(old(self)@.s, old(self)@.re->Some_0) != zero_point()
                && !exhausted(old(self)@.sym.cipher) ==> r is Ok,
            (old(self)@.step == XkStep::SendMessage1 || old(self)@.step == XkStep::SendMessage2) && r is Ok
                ==> r->Ok_0@.len() == KEY_LEN + payload@.len() + TAG_LEN,
            old(self)@.step == XkStep::SendMessage3 && r is Ok && old(self)@.sym.cipher.key is Some
                ==> r->Ok_0@.len() == SEALED_KEY_LEN + payload@.len() + TAG_LEN,
    {
        if self.state.step == XkStep::SendMessage1 {
            self.state.write_first(payload)
        } else if self.state.step == XkStep::SendMessage2 {
            self.state.write_second(payload)
        } else if self.state.step == XkStep::SendMessage3 {
            self.state.write_third(payload)
        } else {
            Err(NoiseError::OutOfOrder)
        }
    }

    /// Reads the next handshake message and returns its payload. Any failure
    /// ends the session.
    pub fn read_message(&mut self, msg: &[u8]) -> (r: Result<Vec<u8>, NoiseError>)
        requires
            msg@.len() < AEAD_MAX_LEN,
        ensures
            !awaits_next(old(self)@.step)
                ==> r == Err::<Vec<u8>, NoiseError>(NoiseError::OutOfOrder) && final(self)@ == old(self)@,
            awaits_next(old(self)@.step) && msg@.len() < min_len(old(self)@.step)
                ==> r == Err::<Vec<u8>, NoiseError>(NoiseError::InvalidMessageLength),
            awaits_next(old(self)@.step) && r is Err ==> final(self)@.step == XkStep::Failed,
            (old(self)@.step == XkStep::AwaitMessage1 || old(self)@.step == XkStep::AwaitMessage2) ==> {
                &&& msg@.len() >= KEY_LEN + TAG_LEN && !canonical_point(head_key(msg@))
                    ==> r == Err::<Vec<u8>, NoiseError>(NoiseError::Ecdh(EcdhError::InvalidPk(EcPkInvalid {})))
                &&& msg@.len() >= KEY_LEN + TAG_LEN && canonical_point(head_key(msg@)) && is_low_order(head_key(msg@))
                    ==> r == Err::<Vec<u8>, NoiseError>(NoiseError::Ecdh(EcdhError::WeakPk))
                &&& r is Ok ==> ({
                    let (next, mid, ct) = read_outcome(old(self)@, msg@);
                    final(self)@ == next && opens_to(mid.cipher, mid.h, ct, r->Ok_0@)
                        && forall|q: Seq<u8>| opens_to(mid.cipher, mid.h, ct, q) ==> q == r->Ok_0@
                })
                &&& r == Err::<Vec<u8>, NoiseError>(NoiseError::AuthenticationFailed) ==> ({
                    let (next, mid, ct) = read_outcome(old(self)@, msg@);
                    forall|q: Seq<u8>| !opens_to(mid.cipher, mid.h, ct, q)
                })
            },
            old(self)@.step == XkStep::AwaitMessage3 && r is Ok ==> final(self)@.rs is Some && ({
                let rs = final(self)@.rs->Some_0;
                let mid = read3_mid(old(self)@, msg@, rs);
                let ct = msg@.subrange(SEALED_KEY_LEN as int, msg@.len() as int);
                opens_to(old(self)@.sym.cipher, old(self)@.sym.h, msg@.subrange(0, SEALED_KEY_LEN as int), rs)
                    && (forall|q: Seq<u8>| opens_to(old(self)@.sym.cipher, old(self)@.sym.h, msg@.subrange(0, SEALED_KEY_LEN as int), q) ==> q == rs)
                    && final(self)@ == read3(old(self)@, msg@, rs)
                    && opens_to(mid.cipher, mid.h, ct, r->Ok_0@)
                    && forall|q: Seq<u8>| opens_to(mid.cipher, mid.h, ct, q) ==> q == r->Ok_0@
            }),
            (old(self)@.step == XkStep::AwaitMessage1 || old(self)@.step == XkStep::AwaitMessage2)
                && head_key_usable(old(self)@, msg@) ==> ({
                let (next, mid, ct) = read_outcome(old(self)@, msg@);
                &&& (r is Ok <==> exists|q: Seq<u8>| opens_to(mid.cipher, mid.h, ct, q))
                &&& (r == Err::<Vec<u8>, NoiseError>(NoiseError::AuthenticationFailed)
                    <==> forall|q: Seq<u8>| !opens_to(mid.cipher, mid.h, ct, q))
            }),
            old(self)@.step == XkStep::AwaitMessage3 && msg@.len() >= SEALED_KEY_LEN + TAG_LEN
                && !exhausted(old(self)@.sym.cipher)
                && (forall|q: Seq<u8>| !opens_to(old(self)@.sym.cipher, old(self)@.sym.h, msg@.subrange(0, SEALED_KEY_LEN as int), q))
                ==> r == Err::<Vec<u8>, NoiseError>(NoiseError::AuthenticationFailed),
            forall|rs: Seq<u8>| old(self)@.step == XkStep::AwaitMessage3 && msg@.len() >= SEALED_KEY_LEN + TAG_LEN
                && !exhausted(old(self)@.sym.cipher)
                && #[trigger] static_key_usable(old(self)@, msg@, rs) ==> ({
                let mid = read3_mid(old(self)@, msg@, rs);
                let ct = msg@.subrange(SEALED_KEY_LEN as int, msg@.len() as int);
                &&& (r is Ok <==> exists|q: Seq<u8>| opens_to(mid.cipher, mid.h, ct, q))
                &&& (r == Err::<Vec<u8>, NoiseError>(NoiseError::AuthenticationFailed)
                    <==> forall|q: Seq<u8>| !opens_to(mid.cipher, mid.h, ct, q))
            }),
    {
        if self.state.step == XkStep::AwaitMessage1 || self.state.step == XkStep::AwaitMessage2 {
            self.state.read_ephemeral(msg)
        } else if self.state.step == XkStep::AwaitMessage3 {
            self.state.read_third(msg)
        } else {
            Err(NoiseError::OutOfOrder)
        }
    }

    /// Encrypts a transport message under the sending key and its next nonce.
    /// When the nonces are used up the session ends.
    pub fn encrypt(&mut self, pt: &[u8]) -> (r: Result<Vec<u8>, NoiseError>)
        requires
            pt@.len() <= MAX_PAYLOAD,
        ensures
            old(self)@.step != XkStep::Complete
                ==> r == Err::<Vec<u8>, NoiseError>(NoiseError::SessionUnusable) && final(self)@ == old(self)@,
            old(self)@.step == XkStep::Complete ==> match encrypt_spec(old(self)@.send, Seq::<u8>::empty(), pt@) {
                Some((c, ct)) => r is Ok && r->Ok_0@ == ct && final(self)@ == (XkModel { send: c, ..old(self)@ }),
                None => r == Err::<Vec<u8>, NoiseError>(NoiseError::NonceExhausted)
                    && final(self)@ == (XkModel { step: XkStep::Failed, ..old(self)@ }),
            },
            r is Ok ==> r->Ok_0@.len() == pt@.len() + if old(self)@.send.key is Some { TAG_LEN as int } else { 0 },
    {
        if self.state.step != XkStep::Complete {
            return Err(NoiseError::SessionUnusable);
        }
        let ad: [u8; 0] = [];
        assert(ad@ =~= Seq::<u8>::empty());
        let r = self.state.send.encrypt_with_ad(&ad, pt);
        if r.is_err() {
            self.state.fail();
        }
        r
    }

    /// Decrypts a transport message under the receiving key and its next
    /// nonce. A failure ends the session.
    pub fn decrypt(&mut self, ct: &[u8]) -> (r: Result<Vec<u8>, NoiseError>)
        requires
            ct@.len() < AEAD_MAX_LEN,
        ensures
            old(self)@.step != XkStep::Complete
                ==> r == Err::<Vec<u8>, NoiseError>(NoiseError::SessionUnusable) && final(self)@ == old(self)@,
            old(self)@.step == XkStep::Complete ==> {
                &&& exhausted(old(self)@.recv) <==> r == Err::<Vec<u8>, NoiseError>(NoiseError::NonceExhausted)
                &&& !exhausted(old(self)@.recv) ==> (r == Err::<Vec<u8>, NoiseError>(NoiseError::AuthenticationFailed)
                    <==> forall|q: Seq<u8>| !opens_to(old(self)@.recv, Seq::<u8>::empty(), ct@, q))
                &&& r is Ok ==> opens_to(old(self)@.recv, Seq::<u8>::empty(), ct@, r->Ok_0@)
                    && (forall|q: Seq<u8>| opens_to(old(self)@.recv, Seq::<u8>::empty(), ct@, q) ==> q == r->Ok_0@)
                    && final(self)@ == (XkModel { recv: advance(old(self)@.recv), ..old(self)@ })
                &&& r is Err ==> final(self)@ == (XkModel { step: XkStep::Failed, ..old(self)@ })
                &&& r is Ok || r == Err::<Vec<u8>, NoiseError>(NoiseError::NonceExhausted)
                    || r == Err::<Vec<u8>, NoiseError>(NoiseError::AuthenticationFailed)
            },
    {
        if self.state.step != XkStep::Complete {
            return Err(NoiseError::SessionUnusable);
        }
        let ad: [u8; 0] = [];
        assert(ad@ =~= Seq::<u8>::empty());
        let r = self.state.recv.decrypt_with_ad(&ad, ct);
        if r.is_err() {
            self.state.fail();
        }
        r
    }
}

/// The sealed static key at the head of the third message written from `m`.
pub open spec fn sealed_static(m: XkModel) -> Seq<u8> {
    encrypt_and_hash_spec(m.sym, public_of(m.s))->Some_0.1
}

/// Handshake correctness: an initiator holding the responder's static key,
/// and that responder, run the three messages; each reads what the other
/// wrote, every payload opens to what was sent, and both end with the same
/// transcript hash and with matching transport keys, the initiator's
/// sending key being the responder's receiving key and the reverse.
/// The agreements are those of X25519, where both sides of each pair of keys
/// compute the same shared secret; the sealed static key has the length that
/// the AEAD gives a 32-byte plaintext.
pub proof fn lemma_handshake_keys_agree(
    s_i: Seq<u8>,
    e_i: Seq<u8>,
    s_r: Seq<u8>,
    e_r: Seq<u8>,
    p1: Seq<u8>,
    p2: Seq<u8>,
    p3: Seq<u8>,
)
    requires
        public_of(s_i).len() == KEY_LEN,
        public_of(e_i).len() == KEY_LEN,
        public_of(e_r).len() == KEY_LEN,
        dh_of(e_i, public_of(s_r)) == dh_of(s_r, public_of(e_i)),
        dh_of(e_r, public_of(e_i)) == dh_of(e_i, public_of(e_r)),
        dh_of(s_i, public_of(e_r)) == dh_of(e_r, public_of(s_i)),
        ({
            let (mi1, m1) = write1(initiator_start(s_i, e_i, public_of(s_r)), p1);
            let (mr2, m2) = write2(read1(responder_start(s_r, e_r), m1), p2);
            sealed_static(read2(mi1, m2)).len() == SEALED_KEY_LEN
        }),
    ensures
        ({
            let (mi1, m1) = write1(initiator_start(s_i, e_i, public_of(s_r)), p1);
            let mr1 = read1(responder_start(s_r, e_r), m1);
            let (mr2, m2) = write2(mr1, p2);
            let mi2 = read2(mi1, m2);
            let (mi3, m3) = write3(mi2, p3);
            let mr3 = read3(mr2, m3, public_of(s_i));
            let mid1 = read1_mid(responder_start(s_r, e_r), m1);
            let mid2 = read2_mid(mi1, m2);
            let mid3 = read3_mid(mr2, m3, public_of(s_i));
            &&& opens_to(mid1.cipher, mid1.h, m1.subrange(KEY_LEN as int, m1.len() as int), p1)
            &&& opens_to(mid2.cipher, mid2.h, m2.subrange(KEY_LEN as int, m2.len() as int), p2)
            &&& opens_to(mr2.sym.cipher, mr2.sym.h, m3.subrange(0, SEALED_KEY_LEN as int), public_of(s_i))
            &&& opens_to(mid3.cipher, mid3.h, m3.subrange(SEALED_KEY_LEN as int, m3.len() as int), p3)
            &&& mi3.step == XkStep::Complete && mr3.step == XkStep::Complete
            &&& mi3.sym.h == mr3.sym.h
            &&& mi3.send == mr3.recv
            &&& mi3.recv == mr3.send
        }),
{
    let mi0 = initiator_start(s_i, e_i, public_of(s_r));
    let mr0 = responder_start(s_r, e_r);
    let (mi1, m1) = write1(mi0, p1);
    let e_i_pub = public_of(e_i);
    let c1 = encrypt_and_hash_spec(after_dh(mi0.sym, e_i_pub, dh_of(e_i, public_of(s_r))), p1)->Some_0.1;
    assert(m1.subrange(0, KEY_LEN as int) =~= e_i_pub);
    assert(m1.subrange(KEY_LEN as int, m1.len() as int) =~= c1);
    let mr1 = read1(mr0, m1);
    assert(mr1.sym == mi1.sym);
    let (mr2, m2) = write2(mr1, p2);
    let e_r_pub = public_of(e_r);
    let c2 = encrypt_and_hash_spec(after_dh(mr1.sym, e_r_pub, dh_of(e_r, e_i_pub)), p2)->Some_0.1;
    assert(m2.subrange(0, KEY_LEN as int) =~= e_r_pub);
    assert(m2.subrange(KEY_LEN as int, m2.len() as int) =~= c2);
    let mi2 = read2(mi1, m2);
    assert(mi2.sym == mr2.sym);
    let (mi3, m3) = write3(mi2, p3);
    let sealed_s = encrypt_and_hash_spec(mi2.sym, public_of(s_i))->Some_0;
    let sealed = encrypt_and_hash_spec(write3_mid(mi2), p3)->Some_0;
    assert(sealed_s.1.len() == SEALED_KEY_LEN);
    assert(m3.subrange(0, SEALED_KEY_LEN as int) =~= sealed_s.1);
    assert(m3.subrange(SEALED_KEY_LEN as int, m3.len() as int) =~= sealed.1);
    assert(read3_mid(mr2, m3, public_of(s_i)) == write3_mid(mi2));
}

} // verus!
