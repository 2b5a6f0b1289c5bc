//! Tests of the connection decisions: the dial tie-break, the handshake
//! state machine, and keep-alive accounting.

use secret_store::connection::{
    lex_less, should_initiate_connection, sign_handshake_nonce, Handshake, HandshakeState,
    KeepAlive, MAX_UNANSWERED_KEEP_ALIVES,
};
use secret_store::crypto::KeyPair;
use secret_store::key_server_cluster::Error;

fn keypair(tag: u8) -> KeyPair {
    let mut secret = [0u8; 32];
    secret[31] = tag;
    KeyPair::from_secret_slice(&secret).unwrap()
}

fn sign_with(secret: &[u8; 32], message: &[u8]) -> Vec<u8> {
    let sk = k256::ecdsa::SigningKey::from_slice(secret).unwrap();
    let (sig, rid) = sk.sign_prehash_recoverable(message).unwrap();
    let mut out = sig.to_bytes().to_vec();
    out.push(rid.to_byte());
    out
}

#[test]
fn lexicographic_order_on_ids() {
    assert!(lex_less(&[1, 2, 3], &[1, 2, 4]));
    assert!(!lex_less(&[1, 2, 4], &[1, 2, 3]));
    assert!(!lex_less(&[5, 5], &[5, 5]));
    assert!(lex_less(&[5, 5], &[5, 5, 0]));
}

#[test]
fn dial_tie_break() {
    let low = [1u8; 64];
    let high = [2u8; 64];
    assert!(should_initiate_connection(&low, &high, false));
    assert!(!should_initiate_connection(&high, &low, false));
    // In permissive mode both sides may dial.
    assert!(should_initiate_connection(&high, &low, true));
}

#[test]
fn handshake_accepts_a_member_that_proves_its_id() {
    let peer_secret = {
        let mut s = [0u8; 32];
        s[31] = 14;
        s
    };
    let peer = keypair(14);
    let other = keypair(15);
    let members = vec![peer.public().clone(), other.public().clone()];

    let mut hs = Handshake::new();
    assert_eq!(hs.state, HandshakeState::WaitingForNodePublicKey);
    hs.on_node_public_key(&members, peer.public().clone()).unwrap();
    assert_eq!(hs.state, HandshakeState::WaitingForSignature);

    let nonce = [0x5Au8; 32].to_vec();
    let signature = sign_with(&peer_secret, &nonce);
    hs.on_signature(&signature, &nonce).unwrap();
    assert_eq!(hs.state, HandshakeState::Established);
}

#[test]
fn library_signed_nonce_passes_the_handshake_check() {
    // The library's signing step and its handshake check round-trip.
    let peer_secret = {
        let mut s = [0u8; 32];
        s[31] = 23;
        s
    };
    let peer = keypair(23);
    let members = vec![peer.public().clone()];

    let mut hs = Handshake::new();
    hs.on_node_public_key(&members, peer.public().clone()).unwrap();
    let nonce = [0x6Bu8; 32].to_vec();
    let signature = sign_handshake_nonce(&peer_secret.to_vec(), &nonce).unwrap();
    hs.on_signature(&signature, &nonce).unwrap();
    assert_eq!(hs.state, HandshakeState::Established);

    // A short nonce or an out-of-range secret is refused before signing.
    assert!(matches!(
        sign_handshake_nonce(&peer_secret.to_vec(), &vec![1u8; 8]),
        Err(Error::EthKey(_))
    ));
    assert!(matches!(
        sign_handshake_nonce(&vec![0u8; 32], &nonce),
        Err(Error::EthKey(_))
    ));
}

#[test]
fn handshake_closes_on_unknown_id_or_wrong_signer() {
    let peer = keypair(14);
    let stranger = keypair(99);
    let members = vec![peer.public().clone()];

    // Unknown claimed id.
    let mut hs = Handshake::new();
    assert_eq!(
        hs.on_node_public_key(&members, stranger.public().clone()).unwrap_err(),
        Error::InvalidNodeId
    );
    assert_eq!(hs.state, HandshakeState::Closed);

    // Signature by someone else than the claimed id.
    let mut hs = Handshake::new();
    hs.on_node_public_key(&members, peer.public().clone()).unwrap();
    let nonce = [0x5Au8; 32].to_vec();
    let stranger_secret = {
        let mut s = [0u8; 32];
        s[31] = 99;
        s
    };
    let signature = sign_with(&stranger_secret, &nonce);
    assert_eq!(hs.on_signature(&signature, &nonce).unwrap_err(), Error::InvalidMessage);
    assert_eq!(hs.state, HandshakeState::Closed);

    // Out-of-order messages do not change the state.
    let mut hs = Handshake::new();
    assert_eq!(
        hs.on_signature(&vec![0u8; 65], &nonce).unwrap_err(),
        Error::InvalidStateForRequest
    );
    assert_eq!(hs.state, HandshakeState::WaitingForNodePublicKey);
}

#[test]
fn three_missed_keep_alives_close_the_connection() {
    let mut ka = KeepAlive::new();
    assert!(!ka.on_probe_sent());
    assert!(!ka.on_probe_sent());
    assert!(ka.on_probe_sent());
    assert_eq!(ka.unanswered, MAX_UNANSWERED_KEEP_ALIVES);

    let mut ka = KeepAlive::new();
    assert!(!ka.on_probe_sent());
    ka.on_response();
    assert!(!ka.on_probe_sent());
    assert!(!ka.on_probe_sent());
    assert!(ka.on_probe_sent());
}
