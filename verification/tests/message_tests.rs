//! Tests of the message codec: header round trip, framing, size limits,
//! unknown kinds.

use secret_store::key_server_cluster::Error;
use secret_store::message::{
    build_serialized_message, deserialize_header, deserialize_message, serialize_header,
    serialize_message, ClusterMessage, DecryptionMessage, EncryptionMessage, Message,
    MessageHeader, MESSAGE_HEADER_SIZE,
};

#[test]
fn header_serialization_works() {
    let header = MessageHeader { kind: 1, version: 2, size: 3 };

    let serialized_header = serialize_header(&header).unwrap();
    assert_eq!(serialized_header.len(), MESSAGE_HEADER_SIZE);

    let deserialized_header = deserialize_header(&serialized_header).unwrap();
    assert_eq!(deserialized_header, header);
}

#[test]
fn header_size_field_is_little_endian() {
    let header = MessageHeader { version: 1, kind: 7, size: 0x0201 };
    let bytes = serialize_header(&header).unwrap();
    assert_eq!(bytes, vec![1, 7, 0x01, 0x02]);
}

#[test]
fn short_header_is_rejected() {
    let err = deserialize_header(&[1, 2, 3]).unwrap_err();
    assert!(matches!(err, Error::Io(_)));
}

#[test]
fn message_frame_round_trip() {
    let payload = b"{\"session\":\"00\"}".to_vec();
    let message = Message::Encryption(EncryptionMessage::InitializeSession(payload.clone()));
    let frame = serialize_message(message).unwrap();
    let bytes = frame.into_vec();

    let header = deserialize_header(&bytes).unwrap();
    assert_eq!(header.version, 1);
    assert_eq!(header.kind, 50);
    assert_eq!(header.size as usize, payload.len());

    let back = deserialize_message(&header, bytes[4..].to_vec()).unwrap();
    match back {
        Message::Encryption(EncryptionMessage::InitializeSession(p)) => assert_eq!(p, payload),
        other => panic!("wrong variant: {:?}", other),
    }
}

#[test]
fn every_kind_maps_to_its_wire_number() {
    let cases: Vec<(Message, u8)> = vec![
        (Message::Cluster(ClusterMessage::NodePublicKey(vec![1])), 1),
        (Message::Cluster(ClusterMessage::NodePrivateKeySignature(vec![1])), 2),
        (Message::Cluster(ClusterMessage::KeepAlive(vec![1])), 3),
        (Message::Cluster(ClusterMessage::KeepAliveResponse(vec![1])), 4),
        (Message::Encryption(EncryptionMessage::InitializeSession(vec![1])), 50),
        (Message::Encryption(EncryptionMessage::ConfirmInitialization(vec![1])), 51),
        (Message::Encryption(EncryptionMessage::CompleteInitialization(vec![1])), 52),
        (Message::Encryption(EncryptionMessage::KeysDissemination(vec![1])), 53),
        (Message::Encryption(EncryptionMessage::Complaint(vec![1])), 54),
        (Message::Encryption(EncryptionMessage::ComplaintResponse(vec![1])), 55),
        (Message::Encryption(EncryptionMessage::PublicKeyShare(vec![1])), 56),
        (Message::Encryption(EncryptionMessage::SessionError(vec![1])), 57),
        (Message::Encryption(EncryptionMessage::SessionCompleted(vec![1])), 58),
        (Message::Decryption(DecryptionMessage::InitializeDecryptionSession(vec![1])), 100),
        (Message::Decryption(DecryptionMessage::ConfirmDecryptionInitialization(vec![1])), 101),
        (Message::Decryption(DecryptionMessage::RequestPartialDecryption(vec![1])), 102),
        (Message::Decryption(DecryptionMessage::PartialDecryption(vec![1])), 103),
        (Message::Decryption(DecryptionMessage::DecryptionSessionError(vec![1])), 104),
    ];
    for (message, kind) in cases {
        let bytes = serialize_message(message).unwrap().into_vec();
        assert_eq!(bytes[1], kind);
    }
}

#[test]
fn oversize_payload_is_invalid_message() {
    let payload = vec![0u8; 65536];
    let message = Message::Cluster(ClusterMessage::KeepAlive(payload));
    assert_eq!(serialize_message(message).unwrap_err(), Error::InvalidMessage);

    let largest = vec![0u8; 65535];
    let message = Message::Cluster(ClusterMessage::KeepAlive(largest));
    let frame = serialize_message(message).unwrap().into_vec();
    assert_eq!(frame.len(), 4 + 65535);
}

#[test]
fn build_rejects_oversize_and_sets_size() {
    let header = MessageHeader { version: 1, kind: 3, size: 0 };
    let err = build_serialized_message(header, vec![0u8; 70000]).unwrap_err();
    assert_eq!(err, Error::InvalidMessage);

    let header = MessageHeader { version: 1, kind: 3, size: 0 };
    let frame = build_serialized_message(header, vec![9, 8, 7]).unwrap();
    let bytes = frame.into_vec();
    assert_eq!(bytes, vec![1, 3, 3, 0, 9, 8, 7]);
}

#[test]
fn unknown_kind_is_serde_error() {
    let header = MessageHeader { version: 1, kind: 200, size: 0 };
    let err = deserialize_message(&header, Vec::new()).unwrap_err();
    match err {
        Error::Serde(text) => assert_eq!(text, "unknown message type 200"),
        other => panic!("wrong error: {:?}", other),
    }

    let header = MessageHeader { version: 1, kind: 5, size: 0 };
    let err = deserialize_message(&header, Vec::new()).unwrap_err();
    match err {
        Error::Serde(text) => assert_eq!(text, "unknown message type 5"),
        other => panic!("wrong error: {:?}", other),
    }

    let header = MessageHeader { version: 1, kind: 105, size: 0 };
    let err = deserialize_message(&header, Vec::new()).unwrap_err();
    match err {
        Error::Serde(text) => assert_eq!(text, "unknown message type 105"),
        other => panic!("wrong error: {:?}", other),
    }
}

#[test]
fn wrong_version_is_invalid_message() {
    let header = MessageHeader { version: 2, kind: 3, size: 0 };
    assert_eq!(
        deserialize_message(&header, Vec::new()).unwrap_err(),
        Error::InvalidMessage
    );
}

#[test]
fn error_messages_render() {
    assert_eq!(Error::InvalidThreshold.message(), "invalid threshold value has been passed");
    assert_eq!(Error::AccessDenied.message(), "Access denied");
    assert_eq!(
        Error::Serde("unknown message type 7".to_owned()).message(),
        "serde error unknown message type 7"
    );
}
