use cyphernet_noise::ec::{
    is_weak_point, EcPk, EcSerError, EcSk, EcSkInvalid, Ecdh, EcdhError, EcPkInvalid, PublicKey, SecretKey,
};
use cyphernet_noise::primitives::CurveFault;

fn hex32(s: &str) -> [u8; 32] {
    let mut out = [0u8; 32];
    for i in 0..32 {
        out[i] = u8::from_str_radix(&s[2 * i..2 * i + 2], 16).unwrap();
    }
    out
}

const LOW_ORDER: [&str; 5] = [
    "0000000000000000000000000000000000000000000000000000000000000000",
    "0100000000000000000000000000000000000000000000000000000000000000",
    "ecffffffffffffffffffffffffffffffffffffffffffffffffffffffffffff7f",
    "e0eb7a7c3b41b8ae1656e3faf19fc46ada098deb9c32b1fd866205165f49b800",
    "5f9c95bca3508c24b1d0b1559c83ef5b04445cc4581c8e86d8224eddd09f1157",
];

#[test]
fn generated_key_round_trips_through_compression() {
    for _ in 0..8 {
        let (sk, pk) = SecretKey::generate_keypair();
        let again = sk.to_pk().unwrap();
        assert_eq!(again, pk);
        let enc = again.to_pk_compressed();
        assert_eq!(enc.len(), 32);
        let back = PublicKey::from_pk_compressed_slice(&enc).unwrap();
        assert_eq!(back, pk);
    }
}

#[test]
fn rfc7748_public_keys() {
    let alice = SecretKey::from_bytes(hex32("77076d0a7318a57d3c16c17251b26645df4c2f87ebc0992ab177fba51db92c2a"));
    let bob = SecretKey::from_bytes(hex32("5dab087e624a8a4b79e17f8b83800ee66f3bb1292618b6fd1c2f8b27ff88e0eb"));
    let alice_pk = alice.to_pk().unwrap();
    let bob_pk = bob.to_pk().unwrap();
    assert_eq!(alice_pk.to_bytes(), hex32("8520f0098930a754748b7ddcb43ef75a0dbf3a0d26381af4eba4a98eaa9b4e6a"));
    assert_eq!(bob_pk.to_bytes(), hex32("de9edb7d7b7dc1b4d35b61c2ece435373f8343c85b78674dadfc7e146f882b4f"));
    let ab = alice.ecdh(&bob_pk).unwrap();
    let ba = bob.ecdh(&alice_pk).unwrap();
    assert_eq!(ab, ba);
    let direct = ed25519_compact::x25519::PublicKey::new(bob_pk.to_bytes())
        .dh(&ed25519_compact::x25519::SecretKey::new(alice.to_bytes()))
        .unwrap();
    assert_eq!(ab, *direct);
    assert_ne!(ab, alice.to_bytes());
    assert_ne!(ab, bob_pk.to_bytes());
}

#[test]
fn low_order_points_are_weak() {
    let (sk, _) = SecretKey::generate_keypair();
    for h in LOW_ORDER.iter() {
        let b = hex32(h);
        assert!(is_weak_point(&b));
        let pk = PublicKey::from_bytes(b).unwrap();
        assert_eq!(sk.ecdh(&pk), Err(EcdhError::WeakPk));
        let mut high = b;
        high[31] |= 0x80;
        assert!(is_weak_point(&high));
        if let Ok(hpk) = PublicKey::from_bytes(high) {
            assert_eq!(sk.ecdh(&hpk), Err(EcdhError::WeakPk));
        }
        let raw = ed25519_compact::x25519::PublicKey::new(b)
            .dh(&ed25519_compact::x25519::SecretKey::new(sk.to_bytes()));
        assert!(raw.is_err());
    }
}

#[test]
fn ordinary_point_is_not_weak() {
    let (_, pk) = SecretKey::generate_keypair();
    assert!(!is_weak_point(&pk.to_bytes()));
    assert!(!is_weak_point(&PublicKey::base_point().to_bytes()));
}

#[test]
fn noncanonical_encodings_are_refused() {
    let mut p = [0xffu8; 32];
    p[0] = 0xed;
    p[31] = 0x7f;
    assert!(PublicKey::from_bytes(p).is_err());
    p[0] = 0xee;
    assert!(PublicKey::from_pk_compressed_slice(&p).is_err());
    p[0] = 0xec;
    assert!(PublicKey::from_bytes(p).is_ok());
    p[31] = 0xff;
    p[0] = 0xff;
    assert!(PublicKey::from_bytes(p).is_ok());
}

#[test]
fn wrong_length_encoding_is_refused() {
    assert!(PublicKey::from_pk_compressed_slice(&[9u8; 31]).is_err());
    assert!(PublicKey::from_pk_compressed_slice(&[9u8; 33]).is_err());
    assert!(PublicKey::from_pk_compressed_slice(&[]).is_err());
}

#[test]
fn base_point_is_nine() {
    let mut nine = [0u8; 32];
    nine[0] = 9;
    assert_eq!(PublicKey::base_point().to_bytes(), nine);
    assert_eq!(PublicKey::base_point().to_pk_compressed(), nine.to_vec());
}

#[test]
fn curve_faults_map_to_ecdh_errors() {
    assert_eq!(EcdhError::from(CurveFault::WeakPublicKey), EcdhError::WeakPk);
    assert!(matches!(EcdhError::from(CurveFault::InvalidPublicKey), EcdhError::InvalidPk(_)));
    assert!(matches!(EcdhError::from(CurveFault::NonCanonical), EcdhError::InvalidPk(_)));
    assert!(matches!(EcdhError::from(CurveFault::InvalidSecretKey), EcdhError::InvalidSk(_)));
    assert_eq!(EcdhError::from(CurveFault::SignatureMismatch), EcdhError::Internal);
    assert_eq!(EcdhError::from(CurveFault::ParseError), EcdhError::Internal);
    let pk_err: EcPkInvalid = EcPkInvalid::from(CurveFault::WeakPublicKey);
    assert_eq!(EcdhError::from(pk_err), EcdhError::InvalidPk(pk_err));
    let sk_err: EcSkInvalid = EcSkInvalid::from(CurveFault::InvalidSecretKey);
    assert_eq!(EcdhError::from(sk_err), EcdhError::InvalidSk(sk_err));
    assert_eq!(EcSerError::from(pk_err), EcSerError::InvalidKey(pk_err));
}

#[test]
fn curve_is_named() {
    assert_eq!(PublicKey::curve_name(), "Curve25519");
}
