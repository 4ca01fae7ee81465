use cyphernet_noise::ec::{EcPk, EcSk, Ecdh, EcdhError, PublicKey, SecretKey};
use cyphernet_noise::noise::NoiseError;
use cyphernet_noise::xk::{NoiseTranscoder, NoiseXkState, XkStep};

fn keypair() -> (SecretKey, PublicKey) {
    SecretKey::generate_keypair()
}

struct Pair {
    initiator: NoiseTranscoder,
    responder: NoiseTranscoder,
}

fn fresh_pair() -> Pair {
    let (a_sk, _) = keypair();
    let (b_sk, b_pk) = keypair();
    Pair {
        initiator: NoiseTranscoder::with_xk_initiator(a_sk, b_pk),
        responder: NoiseTranscoder::with_xk_responder(b_sk),
    }
}

fn run_handshake(p: &mut Pair) {
    let m1 = p.initiator.write_message(&[]).unwrap();
    p.responder.read_message(&m1).unwrap();
    let m2 = p.responder.write_message(&[]).unwrap();
    p.initiator.read_message(&m2).unwrap();
    let m3 = p.initiator.write_message(&[]).unwrap();
    p.responder.read_message(&m3).unwrap();
}

#[test]
fn end_to_end_ping_pong() {
    let mut p = fresh_pair();
    assert_eq!(p.initiator.step(), XkStep::SendMessage1);
    assert_eq!(p.responder.step(), XkStep::AwaitMessage1);
    run_handshake(&mut p);
    assert!(p.initiator.is_complete());
    assert!(p.responder.is_complete());
    let ping = p.initiator.encrypt(b"ping").unwrap();
    assert_eq!(p.responder.decrypt(&ping).unwrap(), b"ping".to_vec());
    let pong = p.responder.encrypt(b"pong").unwrap();
    assert_eq!(p.initiator.decrypt(&pong).unwrap(), b"pong".to_vec());
}

#[test]
fn message_lengths_follow_the_wire_format() {
    let mut p = fresh_pair();
    let m1 = p.initiator.write_message(b"hello").unwrap();
    assert_eq!(m1.len(), 32 + 5 + 16);
    assert_eq!(p.responder.read_message(&m1).unwrap(), b"hello".to_vec());
    let m2 = p.responder.write_message(&[]).unwrap();
    assert_eq!(m2.len(), 32 + 16);
    p.initiator.read_message(&m2).unwrap();
    let m3 = p.initiator.write_message(b"xyz").unwrap();
    assert_eq!(m3.len(), 48 + 3 + 16);
    assert_eq!(p.responder.read_message(&m3).unwrap(), b"xyz".to_vec());
}

#[test]
fn both_sides_share_transcript_and_keys() {
    let (a_sk, a_pk) = keypair();
    let mut p = fresh_pair_with(a_sk);
    run_handshake(&mut p);
    assert_eq!(p.initiator.handshake_hash(), p.responder.handshake_hash());
    assert_eq!(p.responder.state().remote_static_key(), Some(a_pk));
    for i in 0..5u8 {
        let c = p.initiator.encrypt(&[i; 7]).unwrap();
        assert_eq!(p.responder.decrypt(&c).unwrap(), vec![i; 7]);
        let d = p.responder.encrypt(&[i, i]).unwrap();
        assert_eq!(p.initiator.decrypt(&d).unwrap(), vec![i, i]);
    }
}

fn fresh_pair_with(a_sk: SecretKey) -> Pair {
    let (b_sk, b_pk) = keypair();
    Pair {
        initiator: NoiseTranscoder::with_xk_initiator(a_sk, b_pk),
        responder: NoiseTranscoder::with_xk_responder(b_sk),
    }
}

#[test]
fn transcripts_differ_between_sessions() {
    let mut p = fresh_pair();
    let mut q = fresh_pair();
    run_handshake(&mut p);
    run_handshake(&mut q);
    assert_ne!(p.initiator.handshake_hash(), q.initiator.handshake_hash());
}

fn flip_each_bit_fails(msg: &[u8], from: usize, make: &dyn Fn() -> NoiseTranscoder) {
    for byte in from..msg.len() {
        for bit in 0..8 {
            let mut bad = msg.to_vec();
            bad[byte] ^= 1 << bit;
            let mut reader = make();
            assert_eq!(reader.read_message(&bad), Err(NoiseError::AuthenticationFailed));
            assert_eq!(reader.step(), XkStep::Failed);
            assert!(!reader.is_complete());
        }
    }
}

#[test]
fn tampered_first_message_is_rejected() {
    let (a_sk, _) = keypair();
    let (b_sk, b_pk) = keypair();
    let b_bytes = b_sk.to_bytes();
    let mut initiator = NoiseTranscoder::with_xk_initiator(a_sk, b_pk);
    let m1 = initiator.write_message(b"payload").unwrap();
    let e = [7u8; 32];
    flip_each_bit_fails(&m1, 32, &|| {
        NoiseTranscoder::with_state(NoiseXkState::new_responder(SecretKey::from_bytes(b_bytes), SecretKey::from_bytes(e)))
    });
}

#[test]
fn tampered_second_and_third_messages_are_rejected() {
    let (a_sk, _) = keypair();
    let (b_sk, b_pk) = keypair();
    let a_bytes = a_sk.to_bytes();
    let b_bytes = b_sk.to_bytes();
    let ea = [3u8; 32];
    let eb = [5u8; 32];
    let make_init = || NoiseXkState::new_initiator(SecretKey::from_bytes(a_bytes), b_pk, SecretKey::from_bytes(ea));
    let make_resp = || NoiseXkState::new_responder(SecretKey::from_bytes(b_bytes), SecretKey::from_bytes(eb));
    let mut i = NoiseTranscoder::with_state(make_init());
    let mut r = NoiseTranscoder::with_state(make_resp());
    let m1 = i.write_message(&[]).unwrap();
    r.read_message(&m1).unwrap();
    let m2 = r.write_message(&[]).unwrap();
    flip_each_bit_fails(&m2, 32, &|| {
        let mut x = NoiseTranscoder::with_state(make_init());
        x.write_message(&[]).unwrap();
        x
    });
    i.read_message(&m2).unwrap();
    let m3 = i.write_message(&[]).unwrap();
    flip_each_bit_fails(&m3, 0, &|| {
        let mut x = NoiseTranscoder::with_state(make_init());
        let mut y = NoiseTranscoder::with_state(make_resp());
        let m1 = x.write_message(&[]).unwrap();
        y.read_message(&m1).unwrap();
        y.write_message(&[]).unwrap();
        y
    });
    r.read_message(&m3).unwrap();
    assert!(r.is_complete());
}

#[test]
fn replayed_transport_message_fails() {
    let mut p = fresh_pair();
    run_handshake(&mut p);
    let c = p.initiator.encrypt(b"once").unwrap();
    assert_eq!(p.responder.decrypt(&c).unwrap(), b"once".to_vec());
    assert_eq!(p.responder.decrypt(&c), Err(NoiseError::AuthenticationFailed));
    assert_eq!(p.responder.step(), XkStep::Failed);
}

#[test]
fn tampered_transport_message_fails() {
    let mut p = fresh_pair();
    run_handshake(&mut p);
    let mut c = p.initiator.encrypt(b"data").unwrap();
    c[0] ^= 1;
    assert_eq!(p.responder.decrypt(&c), Err(NoiseError::AuthenticationFailed));
}

#[test]
fn out_of_order_calls_are_rejected() {
    let mut p = fresh_pair();
    assert_eq!(p.responder.write_message(&[]), Err(NoiseError::OutOfOrder));
    assert_eq!(p.responder.step(), XkStep::AwaitMessage1);
    assert_eq!(p.initiator.read_message(&[0u8; 48]), Err(NoiseError::OutOfOrder));
    assert_eq!(p.initiator.step(), XkStep::SendMessage1);
    assert_eq!(p.initiator.encrypt(b"early"), Err(NoiseError::SessionUnusable));
    assert_eq!(p.responder.decrypt(b"early"), Err(NoiseError::SessionUnusable));
    run_handshake(&mut p);
    assert_eq!(p.initiator.write_message(&[]), Err(NoiseError::OutOfOrder));
    assert_eq!(p.responder.read_message(&[0u8; 64]), Err(NoiseError::OutOfOrder));
}

#[test]
fn short_message_is_rejected() {
    let mut p = fresh_pair();
    let m1 = p.initiator.write_message(&[]).unwrap();
    assert_eq!(p.responder.read_message(&m1[..47]), Err(NoiseError::InvalidMessageLength));
    assert_eq!(p.responder.step(), XkStep::Failed);
    assert_eq!(p.responder.read_message(&m1), Err(NoiseError::OutOfOrder));
}

#[test]
fn weak_responder_key_is_refused() {
    let (a_sk, _) = keypair();
    let zero = PublicKey::from_bytes([0u8; 32]).unwrap();
    let mut i = NoiseTranscoder::with_xk_initiator(a_sk, zero);
    assert_eq!(i.write_message(&[]), Err(NoiseError::Ecdh(EcdhError::WeakPk)));
    assert_eq!(i.step(), XkStep::Failed);
}

#[test]
fn weak_ephemeral_in_first_message_is_refused() {
    let (b_sk, _) = keypair();
    let mut r = NoiseTranscoder::with_xk_responder(b_sk);
    let mut msg = vec![0u8; 48];
    msg[0] = 1;
    assert_eq!(r.read_message(&msg), Err(NoiseError::Ecdh(EcdhError::WeakPk)));
}

#[test]
fn noncanonical_ephemeral_in_first_message_is_refused() {
    let (b_sk, _) = keypair();
    let mut r = NoiseTranscoder::with_xk_responder(b_sk);
    let mut msg = vec![0xffu8; 48];
    msg[0] = 0xee;
    msg[31] = 0x7f;
    let res = r.read_message(&msg);
    assert!(matches!(res, Err(NoiseError::Ecdh(EcdhError::InvalidPk(_)))));
    assert_eq!(r.step(), XkStep::Failed);
}

#[test]
fn static_key_matches_generated_public() {
    let (a_sk, a_pk) = keypair();
    assert_eq!(a_sk.to_pk().unwrap(), a_pk);
    assert_eq!(a_pk.to_pk_compressed().len(), PublicKey::compressed_len());
}

#[test]
fn wrong_expected_responder_key_fails_authentication() {
    let (a_sk, _) = keypair();
    let (b_sk, _) = keypair();
    let (_, other_pk) = keypair();
    let mut i = NoiseTranscoder::with_xk_initiator(a_sk, other_pk);
    let mut r = NoiseTranscoder::with_xk_responder(b_sk);
    let m1 = i.write_message(&[]).unwrap();
    assert_eq!(r.read_message(&m1), Err(NoiseError::AuthenticationFailed));
    assert_eq!(r.step(), XkStep::Failed);
}

#[test]
fn weak_ephemeral_with_top_bit_set_is_refused() {
    let (b_sk, _) = keypair();
    let mut r = NoiseTranscoder::with_xk_responder(b_sk);
    let mut msg = vec![0u8; 48];
    msg[31] = 0x80;
    assert_eq!(r.read_message(&msg), Err(NoiseError::Ecdh(EcdhError::WeakPk)));
}
