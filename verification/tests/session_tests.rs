//! Tests of session admission, the session state machines, the session
//! registry, the key storage and the facade decisions.

use k256::elliptic_curve::sec1::ToEncodedPoint;
use secret_store::cluster::{ClusterSessions, DispatchAction};
use secret_store::crypto::KeyPair;
use secret_store::decryption_session;
use secret_store::ecies::{decrypt_single_message, encrypt_single_message};
use secret_store::encryption_session::{self, check_threshold, DisseminationOutcome, SessionState};
use secret_store::key_server::{
    recover_requestor, return_document_key, return_document_key_shadow,
    return_generated_document_key,
};
use secret_store::key_server_cluster;
use secret_store::key_storage::{DocumentKeyShare, KeyStorage};
use secret_store::types::Error;

fn scalar(tag: u64) -> Vec<u8> {
    let mut b = vec![0u8; 32];
    b[24..].copy_from_slice(&tag.to_be_bytes());
    b
}

fn node(tag: u8) -> Vec<u8> {
    let mut secret = [0u8; 32];
    secret[31] = tag;
    KeyPair::from_secret_slice(&secret).unwrap().public().clone()
}

fn nodes(n: u8) -> Vec<(Vec<u8>, Vec<u8>)> {
    (1..=n).map(|i| (node(i), scalar(i as u64))).collect()
}

fn share_for(threshold: usize, n: u8) -> DocumentKeyShare {
    DocumentKeyShare {
        threshold,
        author: node(1),
        common_point: node(2),
        encrypted_point: node(3),
        polynom1_public: vec![node(4)],
        secret_share: scalar(9),
        id_numbers: nodes(n),
    }
}

#[test]
fn generation_threshold_bounds() {
    // The threshold lies in [0, n - 1]: two nodes admit threshold zero
    // and one, three nodes admit up to two; only n or more is rejected.
    assert!(check_threshold(0, 2).is_ok());
    assert!(check_threshold(1, 2).is_ok());
    assert!(check_threshold(1, 3).is_ok());
    assert!(check_threshold(2, 3).is_ok());
    assert_eq!(check_threshold(2, 2).unwrap_err(), key_server_cluster::Error::InvalidThreshold);
    assert_eq!(check_threshold(3, 3).unwrap_err(), key_server_cluster::Error::InvalidThreshold);
    assert_eq!(check_threshold(5, 3).unwrap_err(), key_server_cluster::Error::InvalidThreshold);
    assert_eq!(check_threshold(0, 0).unwrap_err(), key_server_cluster::Error::InvalidThreshold);
}

#[test]
fn decryption_nodes_count_bounds() {
    // Decryption needs threshold + 1 cooperating nodes: with a threshold
    // one less than the stored participant count every node is required,
    // and that is legal.
    assert!(decryption_session::check_nodes_count(2, 3).is_ok());
    assert!(decryption_session::check_nodes_count(0, 1).is_ok());
    assert_eq!(
        decryption_session::check_nodes_count(3, 3).unwrap_err(),
        key_server_cluster::Error::InvalidNodesCount
    );
}

#[test]
fn encryption_session_happy_path() {
    let ns = nodes(3);
    let mut s =
        encryption_session::Session::new(vec![0x11; 32], node(1), 1, ns).unwrap();
    assert_eq!(s.state, SessionState::WaitingForInitializationConfirm);

    assert_eq!(s.on_confirm_initialization(node(2)).unwrap(), false);
    assert_eq!(s.on_confirm_initialization(node(3)).unwrap(), true);
    assert_eq!(s.state, SessionState::WaitingForInitializationComplete);

    s.on_complete_initialization().unwrap();
    assert_eq!(s.state, SessionState::WaitingForKeysDissemination);

    assert_eq!(s.on_keys_dissemination(node(2), true).unwrap(), DisseminationOutcome::Waiting);
    assert_eq!(
        s.on_keys_dissemination(node(3), true).unwrap(),
        DisseminationOutcome::AllReceived
    );
    assert_eq!(s.state, SessionState::WaitingForComplaints);

    s.on_complaints_resolved(false).unwrap();
    assert_eq!(s.state, SessionState::WaitingForKeysShare);

    assert_eq!(s.on_public_key_share(node(2)).unwrap(), false);
    assert_eq!(s.on_public_key_share(node(3)).unwrap(), true);
    assert_eq!(s.state, SessionState::Finished);

    let share = s.build_key_share(node(1), node(2), node(3), vec![node(4)], scalar(7));
    assert_eq!(share.threshold, 1);
    assert_eq!(share.id_numbers.len(), 3);
}

#[test]
fn encryption_session_rejects_illegal_transitions() {
    let mut s =
        encryption_session::Session::new(vec![0x11; 32], node(1), 0, nodes(2)).unwrap();
    assert_eq!(
        s.on_complete_initialization().unwrap_err(),
        key_server_cluster::Error::InvalidStateForRequest
    );
    assert_eq!(
        s.on_public_key_share(node(2)).unwrap_err(),
        key_server_cluster::Error::InvalidStateForRequest
    );
    assert_eq!(s.state, SessionState::WaitingForInitializationConfirm);
}

#[test]
fn messages_from_strangers_and_duplicates_are_invalid() {
    let mut s =
        encryption_session::Session::new(vec![0x11; 32], node(1), 1, nodes(3)).unwrap();
    // This node's own id does not count as a confirmation.
    assert_eq!(
        s.on_confirm_initialization(node(1)).unwrap_err(),
        key_server_cluster::Error::InvalidMessage
    );
    // A non-participant is turned away.
    assert_eq!(
        s.on_confirm_initialization(node(9)).unwrap_err(),
        key_server_cluster::Error::InvalidMessage
    );
    // A second confirmation from the same peer is turned away and does
    // not advance the protocol.
    assert_eq!(s.on_confirm_initialization(node(2)).unwrap(), false);
    assert_eq!(
        s.on_confirm_initialization(node(2)).unwrap_err(),
        key_server_cluster::Error::InvalidMessage
    );
    assert_eq!(s.state, SessionState::WaitingForInitializationConfirm);
    assert_eq!(s.on_confirm_initialization(node(3)).unwrap(), true);
}

#[test]
fn encryption_session_rejects_bad_parameters() {
    // A threshold of n - 1 is legal; only n or more is rejected.
    assert!(encryption_session::Session::new(vec![0x11; 32], node(1), 1, nodes(2)).is_ok());
    assert_eq!(
        encryption_session::Session::new(vec![0x11; 32], node(1), 2, nodes(2)).unwrap_err(),
        key_server_cluster::Error::InvalidThreshold
    );
    // This node not a participant.
    assert_eq!(
        encryption_session::Session::new(vec![0x11; 32], node(9), 0, nodes(2)).unwrap_err(),
        key_server_cluster::Error::InvalidNodesConfiguration
    );
    // A zero id number.
    let mut ns = nodes(2);
    ns[1].1 = vec![0u8; 32];
    assert_eq!(
        encryption_session::Session::new(vec![0x11; 32], node(1), 0, ns).unwrap_err(),
        key_server_cluster::Error::InvalidNodesConfiguration
    );
    // Fewer than two participants.
    let mut single = nodes(2);
    single.truncate(1);
    assert_eq!(
        encryption_session::Session::new(vec![0x11; 32], node(1), 0, single).unwrap_err(),
        key_server_cluster::Error::InvalidNodesCount
    );
    // A node id collision.
    let mut ns = nodes(2);
    ns[1].0 = ns[0].0.clone();
    assert_eq!(
        encryption_session::Session::new(vec![0x11; 32], node(1), 0, ns).unwrap_err(),
        key_server_cluster::Error::InvalidNodesConfiguration
    );
}

#[test]
fn unresolved_complaint_aborts_with_invalid_message() {
    let mut s =
        encryption_session::Session::new(vec![0x11; 32], node(1), 0, nodes(2)).unwrap();
    s.on_confirm_initialization(node(2)).unwrap();
    s.on_complete_initialization().unwrap();
    assert_eq!(s.on_keys_dissemination(node(2), false).unwrap(), DisseminationOutcome::Complaint);
    assert_eq!(
        s.on_keys_dissemination(node(2), true).unwrap(),
        DisseminationOutcome::AllReceived
    );
    assert_eq!(
        s.on_complaints_resolved(true).unwrap_err(),
        key_server_cluster::Error::InvalidMessage
    );
    assert_eq!(s.state, SessionState::Failed);
}

#[test]
fn node_loss_aborts_unfinished_sessions() {
    let mut s =
        encryption_session::Session::new(vec![0x11; 32], node(1), 0, nodes(2)).unwrap();
    s.on_confirm_initialization(node(2)).unwrap();
    assert_eq!(s.on_node_lost(), Some(key_server_cluster::Error::NodeDisconnected));
    assert_eq!(s.state, SessionState::Failed);
    // A finished or failed session is left alone.
    assert_eq!(s.on_node_lost(), None);
}

#[test]
fn decryption_session_collects_a_quorum_and_combines() {
    let share = share_for(1, 3);
    let mut s = decryption_session::Session::new(
        vec![0x22; 32],
        node(7),
        &share,
        false,
        true,
    )
    .unwrap();
    assert_eq!(s.on_confirm_initialization(node(12)).unwrap(), true);
    assert_eq!(s.state, decryption_session::SessionState::WaitingForPartialDecryption);

    assert_eq!(s.on_partial_decryption(node(12), node(2), None).unwrap(), false);
    // A second partial from the same responder is turned away.
    assert_eq!(
        s.on_partial_decryption(node(12), node(3), None).unwrap_err(),
        key_server_cluster::Error::InvalidMessage
    );
    assert_eq!(s.on_partial_decryption(node(13), node(3), None).unwrap(), true);
    assert_eq!(s.state, decryption_session::SessionState::Finished);

    let result = s.decrypted_secret(node(5)).unwrap();
    assert!(result.common_point.is_none());
    assert!(result.decrypt_shadows.is_none());
    // 2*G + 3*G == 5*G.
    assert_eq!(result.decrypted_secret, node(5));
}

#[test]
fn decryption_session_shadow_mode_returns_shadows() {
    let share = share_for(0, 2);
    let mut s = decryption_session::Session::new(
        vec![0x22; 32],
        node(7),
        &share,
        true,
        true,
    )
    .unwrap();
    // Threshold zero: no confirmations are awaited, the session collects
    // at once, and the single partial from this node finishes the quorum:
    // any one node can decrypt.
    assert_eq!(s.state, decryption_session::SessionState::WaitingForPartialDecryption);
    assert_eq!(s.on_partial_decryption(node(12), node(2), Some(vec![1, 2, 3])).unwrap(), true);
    let result = s.decrypted_secret(node(6)).unwrap();
    assert_eq!(result.decrypted_secret, node(2));
    assert_eq!(result.common_point, Some(node(6)));
    assert_eq!(result.decrypt_shadows, Some(vec![vec![1, 2, 3]]));
}

#[test]
fn decryption_participant_side_answers_one_request() {
    let share = share_for(1, 3);
    let mut s = decryption_session::Session::new_participant(
        vec![0x22; 32],
        node(7),
        &share,
        false,
        true,
    )
    .unwrap();
    assert_eq!(
        s.state,
        decryption_session::SessionState::WaitingForPartialDecryptionRequest
    );
    s.on_partial_decryption_requested().unwrap();
    assert_eq!(s.state, decryption_session::SessionState::Finished);
    // A second request is illegal.
    assert_eq!(
        s.on_partial_decryption_requested().unwrap_err(),
        key_server_cluster::Error::InvalidStateForRequest
    );
    // A participant denied by the ACL never opens.
    assert_eq!(
        decryption_session::Session::new_participant(
            vec![0x22; 32],
            node(7),
            &share,
            false,
            false,
        )
        .unwrap_err(),
        key_server_cluster::Error::AccessDenied
    );
}

#[test]
fn decryption_session_times_out() {
    let share = share_for(1, 3);
    let mut s = decryption_session::Session::new(
        vec![0x22; 32],
        node(7),
        &share,
        false,
        true,
    )
    .unwrap();
    assert_eq!(s.on_timeout(), Some(key_server_cluster::Error::TooEarlyForRequest));
    assert_eq!(s.state, decryption_session::SessionState::Failed);
    assert_eq!(s.on_timeout(), None);
}

#[test]
fn generation_denial_aborts_with_access_denied() {
    let mut s =
        encryption_session::Session::new(vec![0x11; 32], node(1), 0, nodes(2)).unwrap();
    assert_eq!(s.on_initialization_denied(), key_server_cluster::Error::AccessDenied);
    assert_eq!(s.state, SessionState::Failed);
    // Out of the confirmation phase the denial is an illegal request.
    assert_eq!(
        s.on_initialization_denied(),
        key_server_cluster::Error::InvalidStateForRequest
    );
    assert_eq!(s.state, SessionState::Failed);
}

#[test]
fn decryption_session_enforces_acl_and_counts() {
    let share = share_for(1, 3);
    assert_eq!(
        decryption_session::Session::new(vec![0x22; 32], node(7), &share, false, false)
            .unwrap_err(),
        key_server_cluster::Error::AccessDenied
    );
    let mut thin = share_for(1, 3);
    thin.id_numbers.truncate(1);
    assert_eq!(
        decryption_session::Session::new(vec![0x22; 32], node(7), &thin, false, true)
            .unwrap_err(),
        key_server_cluster::Error::InvalidNodesCount
    );
}

#[test]
fn duplicate_session_ids_are_rejected() {
    let mut registry = ClusterSessions::new();
    let id = vec![0x33u8; 32];
    let s1 = encryption_session::Session::new(id.clone(), node(1), 0, nodes(2)).unwrap();
    let s2 = encryption_session::Session::new(id.clone(), node(1), 0, nodes(2)).unwrap();
    registry.insert_encryption_session(id.clone(), s1).unwrap();
    assert_eq!(
        registry.insert_encryption_session(id.clone(), s2).unwrap_err(),
        key_server_cluster::Error::DuplicateSessionId
    );
    // A decryption session under the same id is a different kind and is
    // admitted.
    let share = share_for(0, 2);
    let d = decryption_session::Session::new(id.clone(), node(7), &share, false, true).unwrap();
    registry.insert_decryption_session(id.clone(), d).unwrap();

    // Taking the session out frees the id.
    let taken = registry.take_encryption_session(&id).unwrap();
    assert_eq!(taken.document, id);
    assert_eq!(
        registry.take_encryption_session(&id).unwrap_err(),
        key_server_cluster::Error::InvalidSessionId
    );
}

#[test]
fn inbound_dispatch_by_id_and_kind() {
    let mut registry = ClusterSessions::new();
    let id = vec![0x66u8; 32];

    // No session: only the initiate kinds may open one.
    assert_eq!(registry.dispatch_session_message(&id, 50), DispatchAction::CreateNew);
    assert_eq!(registry.dispatch_session_message(&id, 53), DispatchAction::RejectInvalidSession);
    assert_eq!(registry.dispatch_session_message(&id, 100), DispatchAction::CreateNew);
    assert_eq!(registry.dispatch_session_message(&id, 103), DispatchAction::RejectInvalidSession);
    assert_eq!(registry.dispatch_session_message(&id, 3), DispatchAction::NotSessionMessage);

    // With a live key-generation session, its kinds are forwarded; the
    // other kind still has no session.
    let s = encryption_session::Session::new(id.clone(), node(1), 0, nodes(2)).unwrap();
    registry.insert_encryption_session(id.clone(), s).unwrap();
    assert_eq!(registry.dispatch_session_message(&id, 53), DispatchAction::Forward);
    assert_eq!(registry.dispatch_session_message(&id, 50), DispatchAction::Forward);
    assert_eq!(registry.dispatch_session_message(&id, 103), DispatchAction::RejectInvalidSession);
}

#[test]
fn missing_document_share_is_an_invalid_session() {
    let mut storage = KeyStorage::new();
    let doc = vec![0x47u8; 32];
    assert_eq!(
        decryption_session::load_key_share(&storage, &doc).unwrap_err(),
        key_server_cluster::Error::InvalidSessionId
    );
    // The facade surfaces the missing share as a missing document.
    assert_eq!(
        Error::from_retrieval_error(
            decryption_session::load_key_share(&storage, &doc).unwrap_err()
        ),
        Error::DocumentNotFound
    );
    storage.insert(doc.clone(), share_for(1, 3));
    assert_eq!(decryption_session::load_key_share(&storage, &doc).unwrap().threshold, 1);
}

#[test]
fn key_storage_holds_one_share_per_document() {
    let mut storage = KeyStorage::new();
    let doc = vec![0x44u8; 32];
    assert!(!storage.contains(&doc));
    storage.insert(doc.clone(), share_for(1, 3));
    assert!(storage.contains(&doc));
    assert_eq!(storage.get(&doc).unwrap().threshold, 1);

    // Re-inserting replaces the share: still exactly one, the new one.
    storage.insert(doc.clone(), share_for(2, 3));
    assert_eq!(storage.get(&doc).unwrap().threshold, 2);

    let other = vec![0x45u8; 32];
    assert!(storage.get(&other).is_none());
}

fn sign_with(secret: &[u8; 32], message: &[u8]) -> Vec<u8> {
    let sk = k256::ecdsa::SigningKey::from_slice(secret).unwrap();
    let (sig, rid) = sk.sign_prehash_recoverable(message).unwrap();
    let mut out = sig.to_bytes().to_vec();
    out.push(rid.to_byte());
    out
}

#[test]
fn facade_recovers_requestor_before_any_network_traffic() {
    let mut secret = [0u8; 32];
    secret[31] = 21;
    let kp = KeyPair::from_secret_slice(&secret).unwrap();
    let doc = [0x11u8; 32];
    let signature = sign_with(&secret, &doc);

    let recovered = recover_requestor(&signature, &doc.to_vec()).unwrap();
    assert_eq!(&recovered, kp.public());

    // A malformed signature is a bad signature, with no session involved.
    let garbage = vec![0u8; 65];
    assert_eq!(
        recover_requestor(&garbage, &doc.to_vec()).unwrap_err(),
        Error::BadSignature
    );
}

#[test]
fn facade_maps_session_outcomes() {
    let mut secret = [0u8; 32];
    secret[31] = 21;
    let kp = KeyPair::from_secret_slice(&secret).unwrap();

    // Success: the returned key decrypts with the requestor's secret,
    // after generation and after retrieval alike.
    let key = b"joint document key".to_vec();
    let ct = return_generated_document_key(kp.public(), Ok(key.clone())).unwrap();
    assert_eq!(decrypt_single_message(kp.secret(), &ct).unwrap(), key);
    let ct = return_document_key(kp.public(), Ok(key.clone())).unwrap();
    assert_eq!(decrypt_single_message(kp.secret(), &ct).unwrap(), key);

    // Access denial is surfaced verbatim; a retrieval session that could
    // not be found means the document has no stored key; everything else
    // is internal.
    assert_eq!(
        return_generated_document_key(kp.public(), Err(key_server_cluster::Error::AccessDenied))
            .unwrap_err(),
        Error::AccessDenied
    );
    assert_eq!(
        return_document_key(kp.public(), Err(key_server_cluster::Error::InvalidSessionId))
            .unwrap_err(),
        Error::DocumentNotFound
    );
    match return_document_key(kp.public(), Err(key_server_cluster::Error::NodeDisconnected)) {
        Err(Error::Internal(text)) => {
            assert_eq!(text, "node required for this operation is currently disconnected")
        },
        other => panic!("wrong mapping: {:?}", other),
    }

    let shadow = secret_store::types::DocumentEncryptedKeyShadow {
        decrypted_secret: node(5),
        common_point: Some(node(6)),
        decrypt_shadows: Some(vec![vec![1]]),
    };
    assert_eq!(return_document_key_shadow(Ok(shadow.clone())).unwrap(), shadow);
    assert_eq!(
        return_document_key_shadow(Err(key_server_cluster::Error::AccessDenied)).unwrap_err(),
        Error::AccessDenied
    );
    assert_eq!(
        return_document_key_shadow(Err(key_server_cluster::Error::InvalidSessionId)).unwrap_err(),
        Error::DocumentNotFound
    );
}

/// The client finishing recipe for shadow decryption: decrypting each
/// shadow coefficient, summing, multiplying the common point and adding
/// the partially decrypted secret recovers the document key point.
#[test]
fn shadow_client_recipe_recovers_the_document_key() {
    let mut requestor_secret = [0u8; 32];
    requestor_secret[31] = 29;
    let requestor = KeyPair::from_secret_slice(&requestor_secret).unwrap();

    let to_scalar = |b: &[u8]| {
        <k256::Scalar as k256::elliptic_curve::PrimeField>::from_repr(
            *k256::FieldBytes::from_slice(b),
        )
        .unwrap()
    };
    let s1 = to_scalar(&scalar(1001));
    let s2 = to_scalar(&scalar(2002));
    let s = s1 + s2;
    let k = to_scalar(&scalar(777));
    let c_scalar = to_scalar(&scalar(555));

    let g = k256::ProjectivePoint::GENERATOR;
    let document_key_point = g * k;
    let common_point = g * c_scalar;
    // The partially decrypted secret the servers return in shadow mode.
    let decrypted_secret = document_key_point - common_point * s;

    // The shadow coefficients arrive encrypted to the requestor.
    let shadows = vec![
        encrypt_single_message(requestor.public(), &scalar(1001)).unwrap(),
        encrypt_single_message(requestor.public(), &scalar(2002)).unwrap(),
    ];

    // Client side: decrypt the shadows, sum, finish.
    let mut sum = to_scalar(&[0u8; 32]);
    for shadow in &shadows {
        let part = decrypt_single_message(requestor.secret(), shadow).unwrap();
        sum = sum + to_scalar(&part);
    }
    let recovered = decrypted_secret + common_point * sum;
    assert_eq!(
        recovered.to_affine().to_encoded_point(false),
        document_key_point.to_affine().to_encoded_point(false)
    );
}
