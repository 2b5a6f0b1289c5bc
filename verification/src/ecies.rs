//! ECIES single-message encryption for link frames and returned document
//! keys: an ephemeral Diffie-Hellman agreement, a SHA-256 key derivation,
//! AES-128-CTR for the body and HMAC-SHA-256 over nonce and body.
//!
//! A ciphertext is `ephemeral_public[64] || iv[16] || body || mac[32]`.

use vstd::prelude::*;
use crate::crypto::{
    aes128_ctr_apply, aes128_ctr_of, agree, check_scalar_bytes, ecdh_x, hmac_sha256,
    hmac_sha256_of, is_point, is_scalar_bytes, is_valid_public, public_of, random_iv,
    random_keypair, sha256, sha256_of,
};
use crate::key_server_cluster::Error;
use crate::util::{bytes_eq, extend_bytes, subvec};

verus! {

/// The cipher key derived from a shared secret: the first half of its
/// digest.
pub open spec fn ecies_ekey(z: Seq<u8>) -> Seq<u8> {
    sha256_of(z).take(16)
}

/// The MAC key derived from a shared secret: the digest of the second
/// half of its digest.
pub open spec fn ecies_mkey(z: Seq<u8>) -> Seq<u8> {
    sha256_of(sha256_of(z).skip(16))
}

/// What decrypting ECIES bytes under a secret yields: the deciphered body
/// when the bytes parse, the embedded ephemeral key is a point, and the
/// MAC over nonce and body verifies; nothing otherwise.
pub open spec fn ecies_decrypt_spec(secret: Seq<u8>, encrypted: Seq<u8>) -> Option<Seq<u8>> {
    if encrypted.len() < 112 || !is_scalar_bytes(secret) {
        None::<Seq<u8>>
    } else {
        let eph = encrypted.subrange(0, 64);
        let iv = encrypted.subrange(64, 80);
        let body = encrypted.subrange(80, encrypted.len() - 32);
        let mac = encrypted.subrange(encrypted.len() - 32, encrypted.len() as int);
        if !is_point(eph) {
            None::<Seq<u8>>
        } else {
            let z = ecdh_x(secret, eph);
            if mac == hmac_sha256_of(ecies_mkey(z), iv + body) {
                Some(aes128_ctr_of(ecies_ekey(z), iv, body))
            } else {
                None::<Seq<u8>>
            }
        }
    }
}

/// An ECIES ciphertext of `plain` for `public`: every holder of a secret
/// behind `public` decrypts it back to `plain`.
pub open spec fn ecies_encrypted_for(public: Seq<u8>, plain: Seq<u8>, ct: Seq<u8>) -> bool {
    &&& ct.len() == 112 + plain.len()
    &&& forall|s2: Seq<u8>|
        is_scalar_bytes(s2) && public == public_of(s2) ==> ecies_decrypt_spec(s2, ct) == Some(
            plain,
        )
}

/// Encrypt a message so that only the holder of the secret behind
/// `public` can read it. Rejected with a cryptographic error when
/// `public` is not a curve point.
pub fn encrypt_single_message(public: &Vec<u8>, plain: &Vec<u8>) -> (r: Result<Vec<u8>, Error>)
    ensures
        (public@.len() == 64 && is_point(public@)) <==> r is Ok,
        r matches Ok(ct) ==> ecies_encrypted_for(public@, plain@, ct@),
        r matches Err(e) ==> e matches Error::EthKey(_),
{
    if public.len() != 64 {
        return Err(Error::EthKey(invalid_public_string()));
    }
    if !is_valid_public(public) {
        return Err(Error::EthKey(invalid_public_string()));
    }
    let (eph_secret, eph_public) = random_keypair();
    let z = agree(&eph_secret, public);
    let key = sha256(&z);
    let ekey = subvec(key.as_slice(), 0, 16);
    let mkey_half = subvec(key.as_slice(), 16, 32);
    let mkey = sha256(&mkey_half);
    let iv = random_iv();
    let body = aes128_ctr_apply(&ekey, &iv, plain);
    let mut mac_data: Vec<u8> = Vec::new();
    extend_bytes(&mut mac_data, iv.as_slice());
    extend_bytes(&mut mac_data, body.as_slice());
    let mac = hmac_sha256(&mkey, &mac_data);
    let mut ct: Vec<u8> = Vec::new();
    extend_bytes(&mut ct, eph_public.as_slice());
    extend_bytes(&mut ct, iv.as_slice());
    extend_bytes(&mut ct, body.as_slice());
    extend_bytes(&mut ct, mac.as_slice());
    proof {
        assert(ekey@ =~= ecies_ekey(z@));
        assert(mkey_half@ =~= sha256_of(z@).skip(16));
        assert(mac_data@ =~= iv@ + body@);
        assert(ct@.subrange(0, 64) =~= eph_public@);
        assert(ct@.subrange(64, 80) =~= iv@);
        assert(ct@.subrange(80, ct@.len() - 32) =~= body@);
        assert(ct@.subrange(ct@.len() - 32, ct@.len() as int) =~= mac@);
        assert forall|s2: Seq<u8>|
            is_scalar_bytes(s2) && public@ == public_of(s2) implies ecies_decrypt_spec(s2, ct@)
            == Some(plain@) by {
            assert(ecdh_x(s2, ct@.subrange(0, 64)) == z@);
        }
    }
    Ok(ct)
}

/// Decrypt ECIES bytes with the given secret. Every failure — bytes too
/// short, a malformed ephemeral key, a wrong MAC, a secret out of range —
/// is a cryptographic error.
pub fn decrypt_single_message(secret: &Vec<u8>, encrypted: &Vec<u8>) -> (r: Result<Vec<u8>, Error>)
    ensures
        r matches Ok(p) ==> ecies_decrypt_spec(secret@, encrypted@) == Some(p@),
        r is Err ==> ecies_decrypt_spec(secret@, encrypted@) is None,
        r matches Err(e) ==> e matches Error::EthKey(_),
{
    if !check_scalar_bytes(secret.as_slice()) {
        return Err(Error::EthKey(decrypt_error_string()));
    }
    if encrypted.len() < 112 {
        return Err(Error::EthKey(decrypt_error_string()));
    }
    let eph = subvec(encrypted.as_slice(), 0, 64);
    if !is_valid_public(&eph) {
        return Err(Error::EthKey(decrypt_error_string()));
    }
    let iv = subvec(encrypted.as_slice(), 64, 80);
    let body = subvec(encrypted.as_slice(), 80, encrypted.len() - 32);
    let mac = subvec(encrypted.as_slice(), encrypted.len() - 32, encrypted.len());
    let z = agree(secret, &eph);
    let key = sha256(&z);
    let ekey = subvec(key.as_slice(), 0, 16);
    let mkey_half = subvec(key.as_slice(), 16, 32);
    let mkey = sha256(&mkey_half);
    let mut mac_data: Vec<u8> = Vec::new();
    extend_bytes(&mut mac_data, iv.as_slice());
    extend_bytes(&mut mac_data, body.as_slice());
    let expected_mac = hmac_sha256(&mkey, &mac_data);
    proof {
        assert(ekey@ =~= ecies_ekey(z@));
        assert(mkey_half@ =~= sha256_of(z@).skip(16));
        assert(mac_data@ =~= iv@ + body@);
    }
    if !bytes_eq(mac.as_slice(), expected_mac.as_slice()) {
        return Err(Error::EthKey(decrypt_error_string()));
    }
    Ok(aes128_ctr_apply(&ekey, &iv, &body))
}

/// Error text for an invalid recipient public key.
fn invalid_public_string() -> (r: String)
    ensures
        r@ == "invalid public"@,
{
    "invalid public".to_owned()
}

/// Error text for bytes that do not decrypt.
fn decrypt_error_string() -> (r: String)
    ensures
        r@ == "invalid message"@,
{
    "invalid message".to_owned()
}

} // verus!
