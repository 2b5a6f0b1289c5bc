//! Tests of ECIES single-message encryption and the link-frame wrapping:
//! round trips, tampering, and the size bookkeeping of encrypted frames.

use secret_store::crypto::KeyPair;
use secret_store::ecies::{decrypt_single_message, encrypt_single_message};
use secret_store::key_server_cluster::Error;
use secret_store::message::{
    decrypt_message, deserialize_header, encrypt_message, serialize_message, ClusterMessage,
    Message,
};

fn test_keypair(tag: u8) -> KeyPair {
    let mut secret = [0u8; 32];
    secret[31] = tag;
    KeyPair::from_secret_slice(&secret).unwrap()
}

#[test]
fn ecies_round_trip() {
    let kp = test_keypair(9);
    let plain = b"the document key".to_vec();
    let encrypted = encrypt_single_message(kp.public(), &plain).unwrap();
    assert_eq!(encrypted.len(), 112 + plain.len());
    let decrypted = decrypt_single_message(kp.secret(), &encrypted).unwrap();
    assert_eq!(decrypted, plain);
}

#[test]
fn ecies_round_trip_empty_message() {
    let kp = test_keypair(11);
    let plain = Vec::new();
    let encrypted = encrypt_single_message(kp.public(), &plain).unwrap();
    assert_eq!(encrypted.len(), 112);
    let decrypted = decrypt_single_message(kp.secret(), &encrypted).unwrap();
    assert_eq!(decrypted, plain);
}

#[test]
fn ecies_rejects_wrong_secret_and_tampering() {
    let kp = test_keypair(9);
    let other = test_keypair(10);
    let plain = b"the document key".to_vec();
    let encrypted = encrypt_single_message(kp.public(), &plain).unwrap();

    assert!(matches!(
        decrypt_single_message(other.secret(), &encrypted),
        Err(Error::EthKey(_))
    ));

    let mut tampered = encrypted.clone();
    let last = tampered.len() - 1;
    tampered[last] ^= 1;
    assert!(matches!(
        decrypt_single_message(kp.secret(), &tampered),
        Err(Error::EthKey(_))
    ));

    let mut body_tampered = encrypted;
    body_tampered[85] ^= 1;
    assert!(matches!(
        decrypt_single_message(kp.secret(), &body_tampered),
        Err(Error::EthKey(_))
    ));
}

#[test]
fn ecies_rejects_invalid_public() {
    let junk = vec![0xCDu8; 64];
    assert!(matches!(
        encrypt_single_message(&junk, &b"x".to_vec()),
        Err(Error::EthKey(_))
    ));
    let short = vec![1u8; 10];
    assert!(matches!(
        encrypt_single_message(&short, &b"x".to_vec()),
        Err(Error::EthKey(_))
    ));
}

#[test]
fn encrypted_frame_round_trip() {
    // Serialize, encrypt under the link key, decrypt, deserialize: the
    // original payload comes back, and the header size tracks the
    // ciphertext length.
    let link = test_keypair(33);
    let payload = b"{\"nonce\":7}".to_vec();
    let message = Message::Cluster(ClusterMessage::KeepAlive(payload.clone()));
    let frame = serialize_message(message).unwrap();

    let encrypted = encrypt_message(&link, frame).unwrap();
    let bytes = encrypted.into_vec();
    let header = deserialize_header(&bytes).unwrap();
    assert_eq!(header.version, 1);
    assert_eq!(header.kind, 3);
    assert_eq!(header.size as usize, payload.len() + 112);

    let decrypted = decrypt_message(&link, bytes[4..].to_vec()).unwrap();
    assert_eq!(decrypted, payload);
}

#[test]
fn encrypt_message_rejects_oversize_ciphertext() {
    // A payload whose ciphertext would no longer fit the 16-bit size
    // field is rejected.
    let link = test_keypair(33);
    let payload = vec![0u8; 65535 - 112 + 1];
    let message = Message::Cluster(ClusterMessage::KeepAlive(payload));
    let frame = serialize_message(message).unwrap();
    assert_eq!(encrypt_message(&link, frame).unwrap_err(), Error::InvalidMessage);
}
