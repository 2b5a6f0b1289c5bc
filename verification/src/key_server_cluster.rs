//! Shared definitions of the key-server cluster: the session error type and
//! the session identifier.

use vstd::prelude::*;

verus! {

/// Errors which can occur during encryption/decryption sessions.
#[derive(Clone, Debug, PartialEq)]
pub enum Error {
    /// Invalid node address has been passed.
    InvalidNodeAddress,
    /// Invalid node id has been passed.
    InvalidNodeId,
    /// Session with the given id already exists.
    DuplicateSessionId,
    /// Session with the given id is unknown.
    InvalidSessionId,
    /// Invalid number of nodes for the requested operation.
    InvalidNodesCount,
    /// A node required for the session is not a member of the cluster.
    InvalidNodesConfiguration,
    /// Threshold out of the legal range for the participating set.
    InvalidThreshold,
    /// Session is not yet ready to process this request; retry later.
    TooEarlyForRequest,
    /// Session state does not allow this request; fatal for the session.
    InvalidStateForRequest,
    /// Message or some data in the message was recognized as invalid.
    InvalidMessage,
    /// Connection to a node required for this session is not established.
    NodeDisconnected,
    /// Cryptographic error.
    EthKey(String),
    /// I/O error has occurred.
    Io(String),
    /// Deserialization error has occurred.
    Serde(String),
    /// Key storage error.
    KeyStorage(String),
    /// Acl storage error.
    AccessDenied,
}

impl Error {
    /// The text of each error, as shown to operators.
    pub open spec fn message_spec(self) -> Seq<char> {
        match self {
            Error::InvalidNodeAddress => "invalid node address has been passed"@,
            Error::InvalidNodeId => "invalid node id has been passed"@,
            Error::DuplicateSessionId => "session with the same id is already registered"@,
            Error::InvalidSessionId => "invalid session id has been passed"@,
            Error::InvalidNodesCount => "invalid nodes count"@,
            Error::InvalidNodesConfiguration => "invalid nodes configuration"@,
            Error::InvalidThreshold => "invalid threshold value has been passed"@,
            Error::TooEarlyForRequest => "session is not yet ready to process this request"@,
            Error::InvalidStateForRequest => "session is in invalid state for processing this request"@,
            Error::InvalidMessage => "invalid message is received"@,
            Error::NodeDisconnected => "node required for this operation is currently disconnected"@,
            Error::EthKey(e) => "cryptographic error "@ + e@,
            Error::Io(e) => "i/o error "@ + e@,
            Error::Serde(e) => "serde error "@ + e@,
            Error::KeyStorage(e) => "key storage error "@ + e@,
            Error::AccessDenied => "Access denied"@,
        }
    }

    /// Render the error as text.
    pub fn message(&self) -> (r: String)
        ensures
            r@ == self.message_spec(),
    {
        match self {
            Error::InvalidNodeAddress => "invalid node address has been passed".to_owned(),
            Error::InvalidNodeId => "invalid node id has been passed".to_owned(),
            Error::DuplicateSessionId => "session with the same id is already registered".to_owned(),
            Error::InvalidSessionId => "invalid session id has been passed".to_owned(),
            Error::InvalidNodesCount => "invalid nodes count".to_owned(),
            Error::InvalidNodesConfiguration => "invalid nodes configuration".to_owned(),
            Error::InvalidThreshold => "invalid threshold value has been passed".to_owned(),
            Error::TooEarlyForRequest => "session is not yet ready to process this request".to_owned(),
            Error::InvalidStateForRequest => "session is in invalid state for processing this request".to_owned(),
            Error::InvalidMessage => "invalid message is received".to_owned(),
            Error::NodeDisconnected => "node required for this operation is currently disconnected".to_owned(),
            Error::EthKey(e) => {
                let mut s = "cryptographic error ".to_owned();
                s.append(e.as_str());
                s
            },
            Error::Io(e) => {
                let mut s = "i/o error ".to_owned();
                s.append(e.as_str());
                s
            },
            Error::Serde(e) => {
                let mut s = "serde error ".to_owned();
                s.append(e.as_str());
                s
            },
            Error::KeyStorage(e) => {
                let mut s = "key storage error ".to_owned();
                s.append(e.as_str());
                s
            },
            Error::AccessDenied => "Access denied".to_owned(),
        }
    }
}

} // verus!
