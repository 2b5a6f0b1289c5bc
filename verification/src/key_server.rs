//! The key-server facade: the decisions around the asynchronous cluster
//! sessions, as plain functions from values to values. The requestor is
//! recovered from the request signature before any network traffic; the
//! session outcome is mapped to the caller's error space; a returned
//! document key is ECIES-encrypted under the requestor's public key. The
//! event loop that drives the sessions lives outside.

use vstd::prelude::*;
use crate::types::{DocumentEncryptedKeyShadow, Error};
use crate::key_server_cluster;
use crate::crypto::{is_point, recover, recovered_public};
use crate::ecies::{ecies_encrypted_for, encrypt_single_message};

verus! {

/// Recover the requestor's public key from the signature over the
/// document address. A signature that does not recover is answered with
/// a bad-signature error, before any network traffic.
pub fn recover_requestor(signature: &Vec<u8>, document: &Vec<u8>) -> (r: Result<Vec<u8>, Error>)
    ensures
        recovered_public(signature@, document@) is Some ==> (r matches Ok(v) && recovered_public(
            signature@,
            document@,
        ) == Some(v@) && is_point(v@) && v@.len() == 64),
        recovered_public(signature@, document@) is None ==> r == Err::<Vec<u8>, Error>(
            Error::BadSignature,
        ),
{
    match recover(signature, document) {
        Some(p) => Ok(p),
        None => Err(Error::BadSignature),
    }
}

/// Map a key-generation session outcome to the facade result: the fresh
/// document key is ECIES-encrypted under the requestor's public key; a
/// session error is surfaced (access denial verbatim, the rest internal);
/// a key that cannot be encrypted is an internal error.
pub fn return_generated_document_key(requestor_public: &Vec<u8>, session_result: Result<
    Vec<u8>,
    key_server_cluster::Error,
>) -> (r: Result<Vec<u8>, Error>)
    ensures
        session_result matches Ok(k) ==> ({
            &&& ((requestor_public@.len() == 64 && is_point(requestor_public@)) <==> r is Ok)
            &&& (r matches Ok(ct) ==> ecies_encrypted_for(requestor_public@, k@, ct@))
            &&& (r matches Err(e) ==> e matches Error::Internal(_))
        }),
        session_result matches Err(e) ==> ({
            &&& (e == key_server_cluster::Error::AccessDenied ==> r == Err::<Vec<u8>, Error>(
                Error::AccessDenied,
            ))
            &&& (e != key_server_cluster::Error::AccessDenied ==> (r matches Err(f) && f matches
                Error::Internal(s) && s@ == e.message_spec()))
        }),
{
    let key = match session_result {
        Ok(k) => k,
        Err(e) => {
            return Err(Error::from_cluster_error(e));
        },
    };
    encrypt_returned_key(requestor_public, &key)
}

/// Map a key-retrieval session outcome to the facade result: the stored
/// document key is ECIES-encrypted under the requestor's public key; a
/// session that could not be found means no share is stored for the
/// document and surfaces as a missing document; access denial is
/// surfaced verbatim; every other session error is internal, as is a key
/// that cannot be encrypted.
pub fn return_document_key(requestor_public: &Vec<u8>, session_result: Result<
    Vec<u8>,
    key_server_cluster::Error,
>) -> (r: Result<Vec<u8>, Error>)
    ensures
        session_result matches Ok(k) ==> ({
            &&& ((requestor_public@.len() == 64 && is_point(requestor_public@)) <==> r is Ok)
            &&& (r matches Ok(ct) ==> ecies_encrypted_for(requestor_public@, k@, ct@))
            &&& (r matches Err(e) ==> e matches Error::Internal(_))
        }),
        session_result matches Err(e) ==> ({
            &&& (e == key_server_cluster::Error::AccessDenied ==> r == Err::<Vec<u8>, Error>(
                Error::AccessDenied,
            ))
            &&& (e == key_server_cluster::Error::InvalidSessionId ==> r == Err::<Vec<u8>, Error>(
                Error::DocumentNotFound,
            ))
            &&& ((e != key_server_cluster::Error::AccessDenied && e
                != key_server_cluster::Error::InvalidSessionId) ==> (r matches Err(f) && f matches
                Error::Internal(s) && s@ == e.message_spec()))
        }),
{
    let key = match session_result {
        Ok(k) => k,
        Err(e) => {
            return Err(Error::from_retrieval_error(e));
        },
    };
    encrypt_returned_key(requestor_public, &key)
}

/// Encrypt a document key under the requestor's public key; a key that
/// cannot be encrypted is an internal error.
fn encrypt_returned_key(requestor_public: &Vec<u8>, key: &Vec<u8>) -> (r: Result<Vec<u8>, Error>)
    ensures
        (requestor_public@.len() == 64 && is_point(requestor_public@)) <==> r is Ok,
        r matches Ok(ct) ==> ecies_encrypted_for(requestor_public@, key@, ct@),
        r matches Err(e) ==> e matches Error::Internal(_),
{
    match encrypt_single_message(requestor_public, key) {
        Ok(ct) => Ok(ct),
        Err(e) => {
            let mut text = "Error encrypting document key: ".to_owned();
            let tail = e.message();
            text.append(tail.as_str());
            Err(Error::Internal(text))
        },
    }
}

/// Map a shadow-decryption session outcome to the facade result: the
/// structured result is returned unchanged; a session that could not be
/// found surfaces as a missing document; access denial is surfaced
/// verbatim; every other session error is internal.
pub fn return_document_key_shadow(session_result: Result<
    DocumentEncryptedKeyShadow,
    key_server_cluster::Error,
>) -> (r: Result<DocumentEncryptedKeyShadow, Error>)
    ensures
        session_result matches Ok(k) ==> r == Ok::<DocumentEncryptedKeyShadow, Error>(k),
        session_result matches Err(e) ==> ({
            &&& (e == key_server_cluster::Error::AccessDenied ==> r == Err::<
                DocumentEncryptedKeyShadow,
                Error,
            >(Error::AccessDenied))
            &&& (e == key_server_cluster::Error::InvalidSessionId ==> r == Err::<
                DocumentEncryptedKeyShadow,
                Error,
            >(Error::DocumentNotFound))
            &&& ((e != key_server_cluster::Error::AccessDenied && e
                != key_server_cluster::Error::InvalidSessionId) ==> (r matches Err(f) && f matches
                Error::Internal(s) && s@ == e.message_spec()))
        }),
{
    match session_result {
        Ok(k) => Ok(k),
        Err(e) => Err(Error::from_retrieval_error(e)),
    }
}

} // verus!
