//! Public types of the secret store: the store-level error, node addresses
//! and the cluster configuration.

use vstd::prelude::*;
use crate::key_server_cluster;

verus! {

/// Node id: an uncompressed secp256k1 public key, 64 bytes.
pub type NodeId = Vec<u8>;

/// Document address: an opaque 32-byte identifier.
pub type DocumentAddress = Vec<u8>;

/// Document key bytes.
pub type DocumentKey = Vec<u8>;

/// Encrypted document key bytes.
pub type DocumentEncryptedKey = Vec<u8>;

/// Request signature: a 65-byte recoverable EC signature over the document
/// address.
pub type RequestSignature = Vec<u8>;

/// Secret store error.
#[derive(Debug, Clone, PartialEq)]
pub enum Error {
    /// Bad signature is passed.
    BadSignature,
    /// Access to resource is denied.
    AccessDenied,
    /// Requested document not found.
    DocumentNotFound,
    /// Database-related error.
    Database(String),
    /// Internal error.
    Internal(String),
}

/// Address of a single node.
#[derive(Debug, Clone)]
pub struct NodeAddress {
    /// IP address.
    pub address: String,
    /// IP port.
    pub port: u16,
}

/// Secret store configuration.
#[derive(Debug)]
pub struct ServiceConfiguration {
    /// HTTP listener address.
    pub listener_address: NodeAddress,
    /// Data directory path for secret store.
    pub data_path: String,
    /// Cluster configuration.
    pub cluster_config: ClusterConfiguration,
}

/// Key server cluster configuration.
#[derive(Debug)]
pub struct ClusterConfiguration {
    /// Number of threads reserved by cluster.
    pub threads: usize,
    /// Private key this node holds, 32 bytes.
    pub self_private: Vec<u8>,
    /// This node address.
    pub listener_address: NodeAddress,
    /// All cluster nodes addresses, keyed by node id; ids are unique.
    pub nodes: Vec<(NodeId, NodeAddress)>,
    /// Allow outbound connections to 'higher' nodes.
    /// This is useful for tests, but slower a bit for production.
    pub allow_connecting_to_higher_nodes: bool,
    /// Encryption session configuration.
    pub encryption_config: EncryptionConfiguration,
}

impl ClusterConfiguration {
    /// The node-id column of the membership list.
    pub open spec fn node_ids(&self) -> Seq<Seq<u8>> {
        self.nodes@.map_values(|e: (NodeId, NodeAddress)| e.0@)
    }

    /// Every node id appears once in the membership list.
    pub open spec fn wf(&self) -> bool {
        forall|i: int, j: int|
            0 <= i < j < self.node_ids().len() ==> self.node_ids()[i] != self.node_ids()[j]
    }
}

/// Encryption parameters.
#[derive(Debug, Clone)]
pub struct EncryptionConfiguration {
    /// Key check timeout.
    pub key_check_timeout_ms: u64,
}

/// Shadow decryption result.
#[derive(Debug, Clone, PartialEq)]
pub struct DocumentEncryptedKeyShadow {
    /// Decrypted secret point. It is partially decrypted if shadow
    /// decryption was requested.
    pub decrypted_secret: Vec<u8>,
    /// Shared common point.
    pub common_point: Option<Vec<u8>>,
    /// If shadow decryption was requested: shadow decryption coefficients,
    /// encrypted with requestor public.
    pub decrypt_shadows: Option<Vec<Vec<u8>>>,
}

impl Error {
    /// The text of each error, as shown to callers.
    pub open spec fn message_spec(self) -> Seq<char> {
        match self {
            Error::BadSignature => "Bad signature"@,
            Error::AccessDenied => "Access denied"@,
            Error::DocumentNotFound => "Document not found"@,
            Error::Database(msg) => "Database error: "@ + msg@,
            Error::Internal(msg) => "Internal error: "@ + msg@,
        }
    }

    /// Render the error as text.
    pub fn message(&self) -> (r: String)
        ensures
            r@ == self.message_spec(),
    {
        match self {
            Error::BadSignature => "Bad signature".to_owned(),
            Error::AccessDenied => "Access denied".to_owned(),
            Error::DocumentNotFound => "Document not found".to_owned(),
            Error::Database(msg) => {
                let mut s = "Database error: ".to_owned();
                s.append(msg.as_str());
                s
            },
            Error::Internal(msg) => {
                let mut s = "Internal error: ".to_owned();
                s.append(msg.as_str());
                s
            },
        }
    }

    /// Map a session error to a store error: access denial is surfaced
    /// verbatim, everything else is internal, carrying the session error's
    /// text.
    pub fn from_cluster_error(err: key_server_cluster::Error) -> (r: Error)
        ensures
            err == key_server_cluster::Error::AccessDenied ==> r == Error::AccessDenied,
            err != key_server_cluster::Error::AccessDenied ==> (r matches Error::Internal(s) && s@
                == err.message_spec()),
    {
        match err {
            key_server_cluster::Error::AccessDenied => Error::AccessDenied,
            other => Error::Internal(other.message()),
        }
    }

    /// Map a session error on a key-retrieval path: a session that could
    /// not be found means no key share is stored for the document, so it
    /// surfaces as a missing document; access denial is surfaced verbatim;
    /// everything else is internal, carrying the session error's text.
    pub fn from_retrieval_error(err: key_server_cluster::Error) -> (r: Error)
        ensures
            err == key_server_cluster::Error::AccessDenied ==> r == Error::AccessDenied,
            err == key_server_cluster::Error::InvalidSessionId ==> r == Error::DocumentNotFound,
            (err != key_server_cluster::Error::AccessDenied && err
                != key_server_cluster::Error::InvalidSessionId) ==> (r matches Error::Internal(s)
                && s@ == err.message_spec()),
    {
        match err {
            key_server_cluster::Error::AccessDenied => Error::AccessDenied,
            key_server_cluster::Error::InvalidSessionId => Error::DocumentNotFound,
            other => Error::Internal(other.message()),
        }
    }
}

} // verus!
