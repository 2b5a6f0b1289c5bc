//! Distributed secret store: a fixed-membership cluster of key servers that
//! cooperatively generate, store and release document keys under a threshold
//! cryptosystem over secp256k1.
//!
//! The verified core covers the on-wire message codec and framing, the
//! link-key derivation and ECIES wrapping of frames, the scalar-field math
//! used by the key-generation and decryption sessions, the session state
//! machines, the session registry and the key-server facade logic.

pub mod encryption_session;
pub mod key_server;
pub mod key_server_cluster;
pub mod key_storage;
pub mod math;
pub mod message;
pub mod types;
pub mod cluster;
pub mod connection;
pub mod crypto;
pub mod decryption_session;
pub mod ecies;
pub mod u256;
pub mod util;
