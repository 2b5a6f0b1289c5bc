//! Tests of the 256-bit arithmetic, the link-key derivation and the key
//! pair type.

use k256::elliptic_curve::sec1::ToEncodedPoint;
use secret_store::crypto::KeyPair;
use secret_store::key_server_cluster::Error;
use secret_store::message::compute_shared_key;
use secret_store::u256::{
    curve_order, reduce_mod_curve_order, u256_from_be_bytes, u256_lt, u256_sub, U256,
};

/// The group order as big-endian bytes.
fn order_bytes() -> [u8; 32] {
    let mut b = [0xFFu8; 32];
    b[16..].copy_from_slice(&[
        0xBA, 0xAE, 0xDC, 0xE6, 0xAF, 0x48, 0xA0, 0x3B, 0xBF, 0xD2, 0x5E, 0x8C, 0xD0, 0x36, 0x41,
        0x41,
    ]);
    b[15] = 0xFE;
    b
}

#[test]
fn u256_byte_round_trip() {
    let mut bytes = [0u8; 32];
    for (i, b) in bytes.iter_mut().enumerate() {
        *b = i as u8;
    }
    let v = u256_from_be_bytes(&bytes);
    let back = secret_store::u256::u256_to_be_bytes(&v);
    assert_eq!(back, bytes.to_vec());
}

#[test]
fn u256_comparison_and_subtraction() {
    let a = U256 { l0: 5, l1: 0, l2: 0, l3: 1 };
    let b = U256 { l0: 7, l1: 0, l2: 0, l3: 0 };
    assert!(u256_lt(&b, &a));
    assert!(!u256_lt(&a, &b));
    let d = u256_sub(&a, &b);
    assert_eq!(d, U256 { l0: u64::MAX - 1, l1: u64::MAX, l2: u64::MAX, l3: 0 });
}

#[test]
fn reduction_wraps_values_at_or_above_the_order() {
    // order + 5 reduces to 5; order - 1 stays.
    let order = curve_order();
    let above = U256 { l0: order.l0.wrapping_add(5), ..order };
    let reduced = reduce_mod_curve_order(&above);
    assert_eq!(reduced, U256 { l0: 5, l1: 0, l2: 0, l3: 0 });

    let below = U256 { l0: order.l0 - 1, ..order };
    let reduced = reduce_mod_curve_order(&below);
    assert_eq!(reduced, below);
}

#[test]
fn keypair_rejects_out_of_range_secrets() {
    assert!(matches!(KeyPair::from_secret_slice(&[0u8; 32]), Err(Error::EthKey(_))));
    assert!(matches!(KeyPair::from_secret_slice(&order_bytes()), Err(Error::EthKey(_))));
    assert!(matches!(KeyPair::from_secret_slice(&[1u8; 16]), Err(Error::EthKey(_))));

    let mut one = [0u8; 32];
    one[31] = 1;
    let kp = KeyPair::from_secret_slice(&one).unwrap();
    assert_eq!(kp.secret().as_slice(), &one);
    assert_eq!(kp.public().len(), 64);
}

#[test]
fn keypair_public_matches_generator() {
    // The public key of the secret `1` is the generator itself.
    let mut one = [0u8; 32];
    one[31] = 1;
    let kp = KeyPair::from_secret_slice(&one).unwrap();

    let sk = k256::SecretKey::from_slice(&one).unwrap();
    let ep = sk.public_key().to_encoded_point(false);
    assert_eq!(kp.public().as_slice(), &ep.as_bytes()[1..]);
}

#[test]
fn shared_key_agreement_is_symmetric() {
    let mut s1 = [0u8; 32];
    s1[31] = 42;
    let mut s2 = [0u8; 32];
    s2[31] = 17;
    let kp1 = KeyPair::from_secret_slice(&s1).unwrap();
    let kp2 = KeyPair::from_secret_slice(&s2).unwrap();

    let link12 = compute_shared_key(kp1.secret(), kp2.public()).unwrap();
    let link21 = compute_shared_key(kp2.secret(), kp1.public()).unwrap();
    assert_eq!(link12.secret(), link21.secret());
    assert_eq!(link12.public(), link21.public());

    // The derived link key is a scalar in [1, order): building a key pair
    // from it succeeds.
    assert!(KeyPair::from_secret_slice(link12.secret()).is_ok());
}

#[test]
fn shared_key_rejects_bad_inputs() {
    let mut s1 = [0u8; 32];
    s1[31] = 42;
    let kp1 = KeyPair::from_secret_slice(&s1).unwrap();
    // A public key that is not a curve point.
    let junk = vec![0xABu8; 64];
    assert!(matches!(
        compute_shared_key(kp1.secret(), &junk),
        Err(Error::EthKey(_))
    ));
    // A secret out of range.
    let zero = vec![0u8; 32];
    assert!(matches!(
        compute_shared_key(&zero, kp1.public()),
        Err(Error::EthKey(_))
    ));
}
