//! On-wire message codec: length-framed header plus payload.
//!
//! Every frame is `version:u8 || kind:u8 || size:u16 little-endian ||
//! payload[size]`. The payload of each message kind is a JSON document;
//! encoding the payload of a concrete message into JSON bytes (and decoding
//! it back) is done by the unverified rim around this library, so the codec
//! here works on payload bytes.

use vstd::prelude::*;
use crate::key_server_cluster::Error;
use crate::crypto::{
    KeyPair, check_scalar_bytes, ecdh_x, is_point, is_scalar_bytes, is_valid_public, agree,
    public_of,
};
use crate::ecies::{
    decrypt_single_message, ecies_decrypt_spec, ecies_encrypted_for, encrypt_single_message,
};
use crate::u256::{
    be_val, curve_order_value, reduce_mod_curve_order, u256_from_be_bytes, u256_to_be_bytes,
};
use crate::util::subvec;

verus! {

/// Size of serialized header.
pub const MESSAGE_HEADER_SIZE: usize = 4;

/// Largest payload that fits the 16-bit size field.
pub const MAX_PAYLOAD_SIZE: usize = 65535;

/// Message header.
#[derive(Debug, Clone, PartialEq, Eq, Structural)]
pub struct MessageHeader {
    /// Message/Header version.
    pub version: u8,
    /// Message kind.
    pub kind: u8,
    /// Message payload size (without header).
    pub size: u16,
}

/// Serialized message: header bytes followed by payload bytes.
#[derive(Debug, Clone, PartialEq)]
pub struct SerializedMessage(Vec<u8>);

impl View for SerializedMessage {
    type V = Seq<u8>;

    closed spec fn view(&self) -> Seq<u8> {
        self.0@
    }
}

impl SerializedMessage {
    /// The raw bytes of the frame.
    pub fn as_slice(&self) -> (r: &[u8])
        ensures
            r@ == self@,
    {
        self.0.as_slice()
    }

    /// Consume the frame, yielding its bytes.
    pub fn into_vec(self) -> (r: Vec<u8>)
        ensures
            r@ == self@,
    {
        self.0
    }
}

/// The two little-endian bytes of a 16-bit value.
pub open spec fn le16_bytes(x: u16) -> Seq<u8> {
    seq![(x % 256) as u8, (x / 256) as u8]
}

/// The 16-bit value read from two little-endian bytes.
pub open spec fn le16_value(b0: u8, b1: u8) -> u16 {
    (b0 + 256 * b1) as u16
}

/// The four bytes a header serializes to.
pub open spec fn header_bytes(h: MessageHeader) -> Seq<u8> {
    seq![h.version, h.kind] + le16_bytes(h.size)
}

/// The header read back from the first four bytes of a frame.
pub open spec fn parsed_header(d: Seq<u8>) -> MessageHeader
    recommends
        d.len() >= 4,
{
    MessageHeader { version: d[0], kind: d[1], size: le16_value(d[2], d[3]) }
}

/// A whole frame: header with the size field set to the payload length,
/// followed by the payload.
pub open spec fn frame_bytes(version: u8, kind: u8, payload: Seq<u8>) -> Seq<u8>
    recommends
        payload.len() <= MAX_PAYLOAD_SIZE,
{
    header_bytes(MessageHeader { version, kind, size: payload.len() as u16 }) + payload
}

/// Header serialization round-trips: parsing the four bytes a header
/// serializes to yields the header itself.
pub proof fn lemma_header_round_trip(h: MessageHeader)
    ensures
        parsed_header(header_bytes(h)) == h,
{
    assert(le16_value((h.size % 256) as u8, (h.size / 256) as u8) == h.size);
}

/// Serialize message header.
pub fn serialize_header(header: &MessageHeader) -> (r: Result<Vec<u8>, Error>)
    ensures
        r matches Ok(v) && v@ == header_bytes(*header),
{
    let mut buffer: Vec<u8> = Vec::with_capacity(MESSAGE_HEADER_SIZE);
    buffer.push(header.version);
    buffer.push(header.kind);
    buffer.push((header.size % 256) as u8);
    buffer.push((header.size / 256) as u8);
    proof {
        assert(buffer@ =~= header_bytes(*header));
    }
    Ok(buffer)
}

/// Deserialize message header.
pub fn deserialize_header(data: &[u8]) -> (r: Result<MessageHeader, Error>)
    ensures
        data@.len() >= 4 ==> (r matches Ok(h) && h == parsed_header(data@)),
        data@.len() < 4 ==> (r matches Err(e) && e matches Error::Io(_)),
{
    if data.len() < 4 {
        return Err(Error::Io(short_header_error_string()));
    }
    let size: u16 = data[2] as u16 + 256 * (data[3] as u16);
    Ok(MessageHeader { version: data[0], kind: data[1], size })
}

/// Build a serialized message from header and payload; the header's size
/// field is set to the payload length. Payloads over the 16-bit limit are
/// rejected with `InvalidMessage`.
pub fn build_serialized_message(header: MessageHeader, payload: Vec<u8>) -> (r: Result<
    SerializedMessage,
    Error,
>)
    ensures
        payload@.len() > MAX_PAYLOAD_SIZE ==> r == Err::<SerializedMessage, Error>(
            Error::InvalidMessage,
        ),
        payload@.len() <= MAX_PAYLOAD_SIZE ==> (r matches Ok(m) && m@ == frame_bytes(
            header.version,
            header.kind,
            payload@,
        )),
{
    if payload.len() > MAX_PAYLOAD_SIZE {
        return Err(Error::InvalidMessage);
    }
    let size: u16 = payload.len() as u16;
    let full_header = MessageHeader { version: header.version, kind: header.kind, size };
    let ghost payload_bytes: Seq<u8> = payload@;
    let mut message = match serialize_header(&full_header) {
        Ok(bytes) => bytes,
        Err(err) => {
            return Err(err);
        },
    };
    let mut payload = payload;
    message.append(&mut payload);
    proof {
        assert(message@ =~= frame_bytes(header.version, header.kind, payload_bytes));
    }
    Ok(SerializedMessage(message))
}

/// Error text for a header shorter than four bytes.
fn short_header_error_string() -> (r: String)
    ensures
        r@ == "header is shorter than four bytes"@,
{
    "header is shorter than four bytes".to_owned()
}

/// Cluster-level messages (handshake and keep-alive), each carrying its
/// JSON payload bytes.
#[derive(Debug, Clone, PartialEq)]
pub enum ClusterMessage {
    /// Initial handshake message: the sender's node id and a nonce.
    NodePublicKey(Vec<u8>),
    /// Signature of the peer's nonce with the sender's long-term secret.
    NodePrivateKeySignature(Vec<u8>),
    /// Keep-alive probe.
    KeepAlive(Vec<u8>),
    /// Keep-alive echo.
    KeepAliveResponse(Vec<u8>),
}

/// Key-generation (encryption) session messages, each carrying its JSON
/// payload bytes.
#[derive(Debug, Clone, PartialEq)]
pub enum EncryptionMessage {
    /// Initiator's opening message with nodes, threshold and bound points.
    InitializeSession(Vec<u8>),
    /// Recipient's accept/deny answer to the initialization.
    ConfirmInitialization(Vec<u8>),
    /// Broadcast after all confirmations arrived.
    CompleteInitialization(Vec<u8>),
    /// Secret share evaluations and public polynomial coefficients.
    KeysDissemination(Vec<u8>),
    /// Accusation that a received share failed verification.
    Complaint(Vec<u8>),
    /// Answer of the accused node to a complaint.
    ComplaintResponse(Vec<u8>),
    /// A node's public share of the joint key.
    PublicKeyShare(Vec<u8>),
    /// Terminal error of the session.
    SessionError(Vec<u8>),
    /// Confirmation that the session finished and the share is persisted.
    SessionCompleted(Vec<u8>),
}

/// Decryption session messages, each carrying its JSON payload bytes.
#[derive(Debug, Clone, PartialEq)]
pub enum DecryptionMessage {
    /// Initiator's opening message with the requestor's signature.
    InitializeDecryptionSession(Vec<u8>),
    /// Recipient's accept/deny answer to the initialization.
    ConfirmDecryptionInitialization(Vec<u8>),
    /// Request for a partial decryption over a chosen participant set.
    RequestPartialDecryption(Vec<u8>),
    /// A participant's partial decryption.
    PartialDecryption(Vec<u8>),
    /// Terminal error of the session.
    DecryptionSessionError(Vec<u8>),
}

/// Any on-wire message.
#[derive(Debug, Clone, PartialEq)]
pub enum Message {
    /// Cluster-level message.
    Cluster(ClusterMessage),
    /// Key-generation session message.
    Encryption(EncryptionMessage),
    /// Decryption session message.
    Decryption(DecryptionMessage),
}

/// The stable wire number of each message kind.
pub open spec fn message_kind(m: Message) -> u8 {
    match m {
        Message::Cluster(ClusterMessage::NodePublicKey(_)) => 1,
        Message::Cluster(ClusterMessage::NodePrivateKeySignature(_)) => 2,
        Message::Cluster(ClusterMessage::KeepAlive(_)) => 3,
        Message::Cluster(ClusterMessage::KeepAliveResponse(_)) => 4,
        Message::Encryption(EncryptionMessage::InitializeSession(_)) => 50,
        Message::Encryption(EncryptionMessage::ConfirmInitialization(_)) => 51,
        Message::Encryption(EncryptionMessage::CompleteInitialization(_)) => 52,
        Message::Encryption(EncryptionMessage::KeysDissemination(_)) => 53,
        Message::Encryption(EncryptionMessage::Complaint(_)) => 54,
        Message::Encryption(EncryptionMessage::ComplaintResponse(_)) => 55,
        Message::Encryption(EncryptionMessage::PublicKeyShare(_)) => 56,
        Message::Encryption(EncryptionMessage::SessionError(_)) => 57,
        Message::Encryption(EncryptionMessage::SessionCompleted(_)) => 58,
        Message::Decryption(DecryptionMessage::InitializeDecryptionSession(_)) => 100,
        Message::Decryption(DecryptionMessage::ConfirmDecryptionInitialization(_)) => 101,
        Message::Decryption(DecryptionMessage::RequestPartialDecryption(_)) => 102,
        Message::Decryption(DecryptionMessage::PartialDecryption(_)) => 103,
        Message::Decryption(DecryptionMessage::DecryptionSessionError(_)) => 104,
    }
}

/// The payload bytes a message carries.
pub open spec fn message_payload(m: Message) -> Seq<u8> {
    match m {
        Message::Cluster(ClusterMessage::NodePublicKey(p)) => p@,
        Message::Cluster(ClusterMessage::NodePrivateKeySignature(p)) => p@,
        Message::Cluster(ClusterMessage::KeepAlive(p)) => p@,
        Message::Cluster(ClusterMessage::KeepAliveResponse(p)) => p@,
        Message::Encryption(EncryptionMessage::InitializeSession(p)) => p@,
        Message::Encryption(EncryptionMessage::ConfirmInitialization(p)) => p@,
        Message::Encryption(EncryptionMessage::CompleteInitialization(p)) => p@,
        Message::Encryption(EncryptionMessage::KeysDissemination(p)) => p@,
        Message::Encryption(EncryptionMessage::Complaint(p)) => p@,
        Message::Encryption(EncryptionMessage::ComplaintResponse(p)) => p@,
        Message::Encryption(EncryptionMessage::PublicKeyShare(p)) => p@,
        Message::Encryption(EncryptionMessage::SessionError(p)) => p@,
        Message::Encryption(EncryptionMessage::SessionCompleted(p)) => p@,
        Message::Decryption(DecryptionMessage::InitializeDecryptionSession(p)) => p@,
        Message::Decryption(DecryptionMessage::ConfirmDecryptionInitialization(p)) => p@,
        Message::Decryption(DecryptionMessage::RequestPartialDecryption(p)) => p@,
        Message::Decryption(DecryptionMessage::PartialDecryption(p)) => p@,
        Message::Decryption(DecryptionMessage::DecryptionSessionError(p)) => p@,
    }
}

/// Whether a wire number names a message kind.
pub open spec fn is_known_kind(k: u8) -> bool {
    (1 <= k <= 4) || (50 <= k <= 58) || (100 <= k <= 104)
}

/// Serialize message: frame its payload bytes under version 1 and the
/// message's wire kind. A payload over the 16-bit size limit is rejected
/// with `InvalidMessage`.
pub fn serialize_message(message: Message) -> (r: Result<SerializedMessage, Error>)
    ensures
        message_payload(message).len() > MAX_PAYLOAD_SIZE ==> r == Err::<
            SerializedMessage,
            Error,
        >(Error::InvalidMessage),
        message_payload(message).len() <= MAX_PAYLOAD_SIZE ==> (r matches Ok(m) && m@
            == frame_bytes(1, message_kind(message), message_payload(message))),
{
    let (message_kind, payload): (u8, Vec<u8>) = match message {
        Message::Cluster(ClusterMessage::NodePublicKey(payload)) => (1, payload),
        Message::Cluster(ClusterMessage::NodePrivateKeySignature(payload)) => (2, payload),
        Message::Cluster(ClusterMessage::KeepAlive(payload)) => (3, payload),
        Message::Cluster(ClusterMessage::KeepAliveResponse(payload)) => (4, payload),
        Message::Encryption(EncryptionMessage::InitializeSession(payload)) => (50, payload),
        Message::Encryption(EncryptionMessage::ConfirmInitialization(payload)) => (51, payload),
        Message::Encryption(EncryptionMessage::CompleteInitialization(payload)) => (52, payload),
        Message::Encryption(EncryptionMessage::KeysDissemination(payload)) => (53, payload),
        Message::Encryption(EncryptionMessage::Complaint(payload)) => (54, payload),
        Message::Encryption(EncryptionMessage::ComplaintResponse(payload)) => (55, payload),
        Message::Encryption(EncryptionMessage::PublicKeyShare(payload)) => (56, payload),
        Message::Encryption(EncryptionMessage::SessionError(payload)) => (57, payload),
        Message::Encryption(EncryptionMessage::SessionCompleted(payload)) => (58, payload),
        Message::Decryption(DecryptionMessage::InitializeDecryptionSession(payload)) => (
            100,
            payload,
        ),
        Message::Decryption(DecryptionMessage::ConfirmDecryptionInitialization(payload)) => (
            101,
            payload,
        ),
        Message::Decryption(DecryptionMessage::RequestPartialDecryption(payload)) => (
            102,
            payload,
        ),
        Message::Decryption(DecryptionMessage::PartialDecryption(payload)) => (103, payload),
        Message::Decryption(DecryptionMessage::DecryptionSessionError(payload)) => (104, payload),
    };
    build_serialized_message(
        MessageHeader { kind: message_kind, version: 1, size: 0 },
        payload,
    )
}

/// Deserialize message: place the payload bytes under the variant the
/// header's kind names. Version 1 is the only accepted version; any
/// other fails with `InvalidMessage`. An unknown kind is rejected with a
/// `Serde` error naming the kind. Decoding the payload bytes into the
/// message's fields is done by the layer above, which reports its own
/// `Serde` errors.
pub fn deserialize_message(header: &MessageHeader, payload: Vec<u8>) -> (r: Result<
    Message,
    Error,
>)
    ensures
        header.version != 1 ==> r == Err::<Message, Error>(Error::InvalidMessage),
        (header.version == 1 && is_known_kind(header.kind)) ==> (r matches Ok(m) && message_kind(m)
            == header.kind && message_payload(m) == payload@),
        (header.version == 1 && !is_known_kind(header.kind)) ==> (r matches Err(e) && e matches
            Error::Serde(s) && s@ == unknown_kind_message(header.kind)),
{
    if header.version != 1 {
        return Err(Error::InvalidMessage);
    }
    Ok(
        match header.kind {
            1 => Message::Cluster(ClusterMessage::NodePublicKey(payload)),
            2 => Message::Cluster(ClusterMessage::NodePrivateKeySignature(payload)),
            3 => Message::Cluster(ClusterMessage::KeepAlive(payload)),
            4 => Message::Cluster(ClusterMessage::KeepAliveResponse(payload)),
            50 => Message::Encryption(EncryptionMessage::InitializeSession(payload)),
            51 => Message::Encryption(EncryptionMessage::ConfirmInitialization(payload)),
            52 => Message::Encryption(EncryptionMessage::CompleteInitialization(payload)),
            53 => Message::Encryption(EncryptionMessage::KeysDissemination(payload)),
            54 => Message::Encryption(EncryptionMessage::Complaint(payload)),
            55 => Message::Encryption(EncryptionMessage::ComplaintResponse(payload)),
            56 => Message::Encryption(EncryptionMessage::PublicKeyShare(payload)),
            57 => Message::Encryption(EncryptionMessage::SessionError(payload)),
            58 => Message::Encryption(EncryptionMessage::SessionCompleted(payload)),
            100 => Message::Decryption(DecryptionMessage::InitializeDecryptionSession(payload)),
            101 => Message::Decryption(
                DecryptionMessage::ConfirmDecryptionInitialization(payload),
            ),
            102 => Message::Decryption(DecryptionMessage::RequestPartialDecryption(payload)),
            103 => Message::Decryption(DecryptionMessage::PartialDecryption(payload)),
            104 => Message::Decryption(DecryptionMessage::DecryptionSessionError(payload)),
            _ => {
                return Err(Error::Serde(unknown_kind_string(header.kind)));
            },
        },
    )
}

/// A frame round-trips: its first four bytes parse back to a header whose
/// size field equals the payload byte length, and the rest is the payload.
pub proof fn lemma_frame_round_trip(version: u8, kind: u8, payload: Seq<u8>)
    requires
        payload.len() <= MAX_PAYLOAD_SIZE,
    ensures
        frame_bytes(version, kind, payload).len() == 4 + payload.len(),
        parsed_header(frame_bytes(version, kind, payload)) == (MessageHeader {
            version,
            kind,
            size: payload.len() as u16,
        }),
        frame_bytes(version, kind, payload).subrange(
            4,
            frame_bytes(version, kind, payload).len() as int,
        ) =~= payload,
{
    lemma_header_round_trip(MessageHeader { version, kind, size: payload.len() as u16 });
}

/// The decimal character of a digit.
pub open spec fn digit_char(d: nat) -> char
    recommends
        d < 10,
{
    if d == 0 {
        '0'
    } else if d == 1 {
        '1'
    } else if d == 2 {
        '2'
    } else if d == 3 {
        '3'
    } else if d == 4 {
        '4'
    } else if d == 5 {
        '5'
    } else if d == 6 {
        '6'
    } else if d == 7 {
        '7'
    } else if d == 8 {
        '8'
    } else {
        '9'
    }
}

/// The decimal digits of a number, most significant first, no leading
/// zeroes.
pub open spec fn dec_digits(n: nat) -> Seq<char>
    decreases n,
{
    if n < 10 {
        seq![digit_char(n)]
    } else {
        dec_digits(n / 10).push(digit_char(n % 10))
    }
}

/// The error text reported for a frame whose kind is not in the table.
pub open spec fn unknown_kind_message(k: u8) -> Seq<char> {
    "unknown message type "@ + dec_digits(k as nat)
}

/// The one-character string of a decimal digit.
fn digit_str(d: u8) -> (s: &'static str)
    requires
        d < 10,
    ensures
        s@ =~= seq![digit_char(d as nat)],
{
    proof {
        reveal_strlit("0");
        reveal_strlit("1");
        reveal_strlit("2");
        reveal_strlit("3");
        reveal_strlit("4");
        reveal_strlit("5");
        reveal_strlit("6");
        reveal_strlit("7");
        reveal_strlit("8");
        reveal_strlit("9");
    }
    if d == 0 {
        "0"
    } else if d == 1 {
        "1"
    } else if d == 2 {
        "2"
    } else if d == 3 {
        "3"
    } else if d == 4 {
        "4"
    } else if d == 5 {
        "5"
    } else if d == 6 {
        "6"
    } else if d == 7 {
        "7"
    } else if d == 8 {
        "8"
    } else {
        "9"
    }
}

/// The decimal rendering of a byte value.
pub fn u8_decimal_string(k: u8) -> (r: String)
    ensures
        r@ == dec_digits(k as nat),
{
    let mut s = String::new();
    if k >= 100 {
        s.append(digit_str(k / 100));
    }
    if k >= 10 {
        s.append(digit_str((k / 10) % 10));
    }
    s.append(digit_str(k % 10));
    proof {
        reveal_with_fuel(dec_digits, 4);
        if k >= 100 {
            vstd::arithmetic::div_mod::lemma_div_denominator(k as int, 10, 10);
            assert(k as nat / 10 / 10 == k as nat / 100);
        }
        assert(s@ =~= dec_digits(k as nat));
    }
    s
}

/// Compute shared encryption key: the x coordinate of the Diffie-Hellman
/// agreement, reduced modulo the group order (the raw agreement may fall
/// outside the scalar range), as a key pair. Rejected with a
/// cryptographic error when an input is out of shape or the reduced value
/// is zero.
pub fn compute_shared_key(self_secret: &Vec<u8>, other_public: &Vec<u8>) -> (r: Result<
    KeyPair,
    Error,
>)
    ensures
        r is Ok <==> (is_scalar_bytes(self_secret@) && other_public@.len() == 64 && is_point(
            other_public@,
        ) && be_val(ecdh_x(self_secret@, other_public@)) % curve_order_value() != 0),
        r matches Ok(kp) ==> ({
            &&& kp.wf()
            &&& be_val(kp.secret_spec()) == be_val(ecdh_x(self_secret@, other_public@))
                % curve_order_value()
            &&& 0 < be_val(kp.secret_spec()) < curve_order_value()
            &&& forall|s2: Seq<u8>|
                is_scalar_bytes(s2) && other_public@ == public_of(s2) ==> be_val(kp.secret_spec())
                    == be_val(ecdh_x(s2, public_of(self_secret@))) % curve_order_value()
        }),
        r matches Err(e) ==> e matches Error::EthKey(_),
{
    if !check_scalar_bytes(self_secret.as_slice()) {
        return Err(Error::EthKey(shared_key_error_string()));
    }
    if other_public.len() != 64 {
        return Err(Error::EthKey(shared_key_error_string()));
    }
    if !is_valid_public(other_public) {
        return Err(Error::EthKey(shared_key_error_string()));
    }
    let shared = agree(self_secret, other_public);
    let v = u256_from_be_bytes(shared.as_slice());
    let reduced = reduce_mod_curve_order(&v);
    let secret_bytes = u256_to_be_bytes(&reduced);
    KeyPair::from_secret_slice(secret_bytes.as_slice())
}

/// Error text for a failed link-key agreement.
fn shared_key_error_string() -> (r: String)
    ensures
        r@ == "invalid link key input"@,
{
    "invalid link key input".to_owned()
}

/// Encrypt serialized message: keep the header (with the size updated to
/// the ciphertext length) and wrap the payload in ECIES under the link
/// public key. A link key whose public half is not a curve point is a
/// cryptographic error; a ciphertext that would no longer fit the 16-bit
/// size field is an invalid message.
pub fn encrypt_message(key: &KeyPair, message: SerializedMessage) -> (r: Result<
    SerializedMessage,
    Error,
>)
    requires
        message@.len() >= 4,
    ensures
        r is Ok <==> (key.public_spec().len() == 64 && is_point(key.public_spec()) && message@.len()
            + 108 <= MAX_PAYLOAD_SIZE),
        r matches Ok(m) ==> ({
            &&& m@.len() == message@.len() + 112
            &&& m@ == frame_bytes(
                parsed_header(message@).version,
                parsed_header(message@).kind,
                m@.skip(4),
            )
            &&& ecies_encrypted_for(key.public_spec(), message@.skip(4), m@.skip(4))
        }),
        !(key.public_spec().len() == 64 && is_point(key.public_spec())) ==> (r matches Err(e)
            && e matches Error::EthKey(_)),
        (key.public_spec().len() == 64 && is_point(key.public_spec()) && message@.len() + 108
            > MAX_PAYLOAD_SIZE) ==> r == Err::<SerializedMessage, Error>(Error::InvalidMessage),
{
    let bytes = message.into_vec();
    let header_part = subvec(bytes.as_slice(), 0, 4);
    let payload = subvec(bytes.as_slice(), 4, bytes.len());
    let header = match deserialize_header(header_part.as_slice()) {
        Ok(h) => h,
        Err(err) => {
            return Err(err);
        },
    };
    let encrypted_payload = match encrypt_single_message(key.public(), &payload) {
        Ok(ct) => ct,
        Err(err) => {
            return Err(err);
        },
    };
    proof {
        assert(header_part@ =~= bytes@.subrange(0, 4));
        assert(payload@ =~= bytes@.skip(4));
        assert(parsed_header(header_part@) == parsed_header(bytes@));
    }
    let r = build_serialized_message(header, encrypted_payload);
    proof {
        if r is Ok {
            assert(r->Ok_0@.skip(4) =~= encrypted_payload@);
        }
    }
    r
}

/// Decrypt serialized message payload with the link secret key.
pub fn decrypt_message(key: &KeyPair, payload: Vec<u8>) -> (r: Result<Vec<u8>, Error>)
    ensures
        r matches Ok(p) ==> ecies_decrypt_spec(key.secret_spec(), payload@) == Some(p@),
        r is Err ==> ecies_decrypt_spec(key.secret_spec(), payload@) is None,
        r matches Err(e) ==> e matches Error::EthKey(_),
{
    decrypt_single_message(key.secret(), &payload)
}

/// Wrapping a frame for a link and unwrapping it on the other side gives
/// the original payload back: what `encrypt_message` makes of a frame,
/// `decrypt_message` under the matching link secret reads back exactly.
pub proof fn lemma_encrypted_frame_round_trip(secret: Seq<u8>, frame: Seq<u8>, encrypted: Seq<u8>)
    requires
        is_scalar_bytes(secret),
        ecies_encrypted_for(public_of(secret), frame.skip(4), encrypted.skip(4)),
    ensures
        ecies_decrypt_spec(secret, encrypted.skip(4)) == Some(frame.skip(4)),
{
}

/// The error text for an unknown message kind.
fn unknown_kind_string(k: u8) -> (r: String)
    ensures
        r@ == unknown_kind_message(k),
{
    let mut s = "unknown message type ".to_owned();
    let digits = u8_decimal_string(k);
    s.append(digits.as_str());
    s
}

} // verus!
