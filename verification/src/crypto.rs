//! Elliptic-curve primitives behind trusted wrappers, and the key pair
//! type. Every wrapper takes and returns plain byte vectors; what an
//! outside call returns is given a name that the callers' contracts and
//! proofs use.
//!
//! Secrets are 32 big-endian bytes holding a scalar in `[1, order)`;
//! public keys are the 64 untagged bytes of an uncompressed curve point.

use vstd::prelude::*;
use crate::u256::{be_val, curve_order_value, u256_from_be_bytes, u256_lt, curve_order};
use crate::key_server_cluster::Error;

verus! {

/// The uncompressed public key of a secret scalar, without the tag byte.
pub uninterp spec fn public_of(secret: Seq<u8>) -> Seq<u8>;

/// Whether 64 bytes are the untagged encoding of a curve point (and not
/// the identity).
pub uninterp spec fn is_point(public: Seq<u8>) -> bool;

/// The x coordinate of the Diffie-Hellman product `secret * public`.
pub uninterp spec fn ecdh_x(secret: Seq<u8>, public: Seq<u8>) -> Seq<u8>;

/// The SHA-256 digest of a byte string.
pub uninterp spec fn sha256_of(data: Seq<u8>) -> Seq<u8>;

/// The HMAC-SHA-256 tag of a byte string under a key.
pub uninterp spec fn hmac_sha256_of(key: Seq<u8>, data: Seq<u8>) -> Seq<u8>;

/// The AES-128-CTR transform of a byte string under a key and nonce.
pub uninterp spec fn aes128_ctr_of(key: Seq<u8>, iv: Seq<u8>, data: Seq<u8>) -> Seq<u8>;

/// The public key recovered from a 65-byte signature over a 32-byte
/// message, when the signature is valid.
pub uninterp spec fn recovered_public(signature: Seq<u8>, message: Seq<u8>) -> Option<Seq<u8>>;

/// The 65-byte recoverable signature of a 32-byte message under a secret
/// scalar; deterministic nonces make it a function of the two.
pub uninterp spec fn signature_of(secret: Seq<u8>, message: Seq<u8>) -> Seq<u8>;

/// 32 bytes holding a scalar in `[1, order)`, big-endian.
pub open spec fn is_scalar_bytes(s: Seq<u8>) -> bool {
    s.len() == 32 && 0 < be_val(s) < curve_order_value()
}

/// Check that 32 bytes hold a scalar in `[1, order)`.
pub fn check_scalar_bytes(s: &[u8]) -> (r: bool)
    ensures
        r == is_scalar_bytes(s@),
{
    if s.len() != 32 {
        return false;
    }
    let v = u256_from_be_bytes(s);
    let order = curve_order();
    !v.is_zero() && u256_lt(&v, &order)
}

/// Relies on `k256::PublicKey::from_encoded_point`: whether 64 untagged
/// bytes parse as a point of the curve.
#[verifier::external_body]
pub(crate) fn is_valid_public(public: &Vec<u8>) -> (r: bool)
    requires
        public@.len() == 64,
    ensures
        r == is_point(public@),
{
    let ep = k256::EncodedPoint::from_untagged_bytes(
        k256::elliptic_curve::generic_array::GenericArray::from_slice(public.as_slice()),
    );
    let p: Option<k256::PublicKey> = <k256::PublicKey as k256::elliptic_curve::sec1::FromEncodedPoint<
        k256::Secp256k1,
    >>::from_encoded_point(&ep).into();
    p.is_some()
}

/// Relies on `k256::SecretKey::from_slice` and
/// `PublicKey::to_encoded_point`: the public key of a secret scalar.
#[verifier::external_body]
pub(crate) fn secret_to_public(secret: &Vec<u8>) -> (r: Vec<u8>)
    requires
        is_scalar_bytes(secret@),
    ensures
        r@ == public_of(secret@),
        r@.len() == 64,
        is_point(r@),
{
    let sk = k256::SecretKey::from_slice(secret.as_slice()).expect("scalar is in range");
    let ep = k256::elliptic_curve::sec1::ToEncodedPoint::to_encoded_point(&sk.public_key(), false);
    ep.as_bytes()[1..].to_vec()
}

/// Relies on k256 scalar-point multiplication: the x coordinate of
/// `secret * public`. Diffie-Hellman agreement is symmetric, so when the
/// peer's public key came from a secret, the peer derives the same bytes
/// from its secret and this side's public key.
#[verifier::external_body]
pub(crate) fn agree(secret: &Vec<u8>, public: &Vec<u8>) -> (r: Vec<u8>)
    requires
        is_scalar_bytes(secret@),
        public@.len() == 64,
        is_point(public@),
    ensures
        r@ == ecdh_x(secret@, public@),
        r@.len() == 32,
        forall|s2: Seq<u8>|
            is_scalar_bytes(s2) && public@ == public_of(s2) ==> r@ == ecdh_x(
                s2,
                public_of(secret@),
            ),
{
    let sk = k256::SecretKey::from_slice(secret.as_slice()).expect("scalar is in range");
    let ep = k256::EncodedPoint::from_untagged_bytes(
        k256::elliptic_curve::generic_array::GenericArray::from_slice(public.as_slice()),
    );
    let pk_opt: Option<k256::PublicKey> = <k256::PublicKey as k256::elliptic_curve::sec1::FromEncodedPoint<
        k256::Secp256k1,
    >>::from_encoded_point(&ep).into();
    let pk = pk_opt.expect("point is on the curve");
    let shared = (pk.to_projective() * *sk.to_nonzero_scalar().as_ref()).to_affine();
    let enc = k256::elliptic_curve::sec1::ToEncodedPoint::to_encoded_point(&shared, false);
    enc.x().expect("product of a point and a nonzero scalar").to_vec()
}

/// Relies on `k256::SecretKey::random` over the operating system's
/// generator: a fresh keypair. Nothing is assumed about which one.
#[verifier::external_body]
pub(crate) fn random_keypair() -> (r: (Vec<u8>, Vec<u8>))
    ensures
        is_scalar_bytes(r.0@),
        r.1@ == public_of(r.0@),
        r.1@.len() == 64,
        is_point(r.1@),
{
    let sk = k256::SecretKey::random(&mut rand_core::OsRng);
    let secret = sk.to_bytes().to_vec();
    let ep = k256::elliptic_curve::sec1::ToEncodedPoint::to_encoded_point(&sk.public_key(), false);
    let public = ep.as_bytes()[1..].to_vec();
    (secret, public)
}

/// Relies on `rand_core::OsRng::fill_bytes`: 16 fresh bytes. Nothing is
/// assumed about which ones.
#[verifier::external_body]
pub(crate) fn random_iv() -> (r: Vec<u8>)
    ensures
        r@.len() == 16,
{
    let mut iv = [0u8; 16];
    rand_core::RngCore::fill_bytes(&mut rand_core::OsRng, &mut iv);
    iv.to_vec()
}

/// Relies on `sha2::Sha256`: the 32-byte digest depends on the input
/// alone.
#[verifier::external_body]
pub(crate) fn sha256(data: &Vec<u8>) -> (r: Vec<u8>)
    ensures
        r@ == sha256_of(data@),
        r@.len() == 32,
{
    <sha2::Sha256 as sha2::Digest>::digest(data.as_slice()).to_vec()
}

/// Relies on `hmac::Hmac<sha2::Sha256>`: the 32-byte tag depends on key
/// and input alone.
#[verifier::external_body]
pub(crate) fn hmac_sha256(key: &Vec<u8>, data: &Vec<u8>) -> (r: Vec<u8>)
    ensures
        r@ == hmac_sha256_of(key@, data@),
        r@.len() == 32,
{
    let mut mac = <hmac::Hmac<sha2::Sha256> as hmac::Mac>::new_from_slice(key.as_slice())
        .expect("HMAC accepts keys of any length");
    hmac::Mac::update(&mut mac, data.as_slice());
    hmac::Mac::finalize(mac).into_bytes().to_vec()
}

/// Relies on `ctr::Ctr128BE<aes::Aes128>`: counter mode adds a keystream
/// that depends on key and nonce alone, so applying it twice restores the
/// input.
#[verifier::external_body]
pub(crate) fn aes128_ctr_apply(key: &Vec<u8>, iv: &Vec<u8>, data: &Vec<u8>) -> (r: Vec<u8>)
    requires
        key@.len() == 16,
        iv@.len() == 16,
    ensures
        r@ == aes128_ctr_of(key@, iv@, data@),
        r@.len() == data@.len(),
        aes128_ctr_of(key@, iv@, r@) == data@,
{
    let mut c = <ctr::Ctr128BE<aes::Aes128> as cipher::KeyIvInit>::new(
        key.as_slice().into(),
        iv.as_slice().into(),
    );
    let mut buf = data.clone();
    cipher::StreamCipher::apply_keystream(&mut c, buf.as_mut_slice());
    buf
}

/// Relies on `k256::ecdsa::VerifyingKey::recover_from_prehash`: the
/// signer's public key read back from a 65-byte recoverable signature
/// over a 32-byte message, or nothing when the signature does not parse
/// or does not recover.
#[verifier::external_body]
pub(crate) fn recover(signature: &Vec<u8>, message: &Vec<u8>) -> (r: Option<Vec<u8>>)
    ensures
        r matches Some(p) ==> (recovered_public(signature@, message@) == Some(p@) && p@.len()
            == 64 && is_point(p@)),
        r is None ==> recovered_public(signature@, message@) is None,
{
    if signature.len() != 65 || message.len() != 32 {
        return None;
    }
    let sig = k256::ecdsa::Signature::from_slice(&signature.as_slice()[..64]).ok()?;
    let rid = k256::ecdsa::RecoveryId::from_byte(signature[64])?;
    let vk = k256::ecdsa::VerifyingKey::recover_from_prehash(message.as_slice(), &sig, rid).ok()?;
    let ep = vk.to_encoded_point(false);
    Some(ep.as_bytes()[1..].to_vec())
}

/// The field sum of two scalars.
pub uninterp spec fn scalar_add_of(a: Seq<u8>, b: Seq<u8>) -> Seq<u8>;

/// The field difference of two scalars.
pub uninterp spec fn scalar_sub_of(a: Seq<u8>, b: Seq<u8>) -> Seq<u8>;

/// The field product of two scalars.
pub uninterp spec fn scalar_mul_of(a: Seq<u8>, b: Seq<u8>) -> Seq<u8>;

/// The field inverse of a nonzero scalar.
pub uninterp spec fn scalar_inv_of(a: Seq<u8>) -> Seq<u8>;

/// The curve point `scalar * point`.
pub uninterp spec fn point_mul_of(scalar: Seq<u8>, point: Seq<u8>) -> Seq<u8>;

/// The curve point `p + q`.
pub uninterp spec fn point_add_of(p: Seq<u8>, q: Seq<u8>) -> Seq<u8>;

/// Whether the sum `p + q` is a point with a 64-byte encoding: true
/// except when the sum is the point at infinity (`q == -p`).
pub uninterp spec fn point_sum_defined(p: Seq<u8>, q: Seq<u8>) -> bool;

/// 32 bytes holding a scalar in `[0, order)`: a reduced field element,
/// zero allowed.
pub open spec fn is_reduced_scalar(s: Seq<u8>) -> bool {
    s.len() == 32 && be_val(s) < curve_order_value()
}

/// Relies on k256 field addition: the sum of the two values, reduced
/// modulo the group order.
#[verifier::external_body]
pub(crate) fn scalar_add(a: &Vec<u8>, b: &Vec<u8>) -> (r: Vec<u8>)
    requires
        is_reduced_scalar(a@),
        is_reduced_scalar(b@),
    ensures
        r@ == scalar_add_of(a@, b@),
        is_reduced_scalar(r@),
        be_val(r@) == (be_val(a@) + be_val(b@)) % curve_order_value(),
{
    let sa = Option::<k256::Scalar>::from(<k256::Scalar as k256::elliptic_curve::PrimeField>::from_repr(
        *k256::FieldBytes::from_slice(a.as_slice()),
    )).expect("reduced scalar");
    let sb = Option::<k256::Scalar>::from(<k256::Scalar as k256::elliptic_curve::PrimeField>::from_repr(
        *k256::FieldBytes::from_slice(b.as_slice()),
    )).expect("reduced scalar");
    (sa + sb).to_bytes().to_vec()
}

/// Relies on k256 field subtraction: the difference of the two values,
/// reduced modulo the group order; it is zero exactly when the arguments
/// are equal.
#[verifier::external_body]
pub(crate) fn scalar_sub(a: &Vec<u8>, b: &Vec<u8>) -> (r: Vec<u8>)
    requires
        is_reduced_scalar(a@),
        is_reduced_scalar(b@),
    ensures
        r@ == scalar_sub_of(a@, b@),
        is_reduced_scalar(r@),
        be_val(r@) == (be_val(a@) + curve_order_value() - be_val(b@)) % (
        curve_order_value() as int),
        be_val(r@) == 0 <==> a@ == b@,
{
    let sa = Option::<k256::Scalar>::from(<k256::Scalar as k256::elliptic_curve::PrimeField>::from_repr(
        *k256::FieldBytes::from_slice(a.as_slice()),
    )).expect("reduced scalar");
    let sb = Option::<k256::Scalar>::from(<k256::Scalar as k256::elliptic_curve::PrimeField>::from_repr(
        *k256::FieldBytes::from_slice(b.as_slice()),
    )).expect("reduced scalar");
    (sa - sb).to_bytes().to_vec()
}

/// Relies on k256 field multiplication: the product of the two values,
/// reduced modulo the group order; the order is prime, so the product of
/// nonzero factors is nonzero.
#[verifier::external_body]
pub(crate) fn scalar_mul(a: &Vec<u8>, b: &Vec<u8>) -> (r: Vec<u8>)
    requires
        is_reduced_scalar(a@),
        is_reduced_scalar(b@),
    ensures
        r@ == scalar_mul_of(a@, b@),
        is_reduced_scalar(r@),
        be_val(r@) == (be_val(a@) * be_val(b@)) % curve_order_value(),
        (be_val(a@) != 0 && be_val(b@) != 0) ==> be_val(r@) != 0,
{
    let sa = Option::<k256::Scalar>::from(<k256::Scalar as k256::elliptic_curve::PrimeField>::from_repr(
        *k256::FieldBytes::from_slice(a.as_slice()),
    )).expect("reduced scalar");
    let sb = Option::<k256::Scalar>::from(<k256::Scalar as k256::elliptic_curve::PrimeField>::from_repr(
        *k256::FieldBytes::from_slice(b.as_slice()),
    )).expect("reduced scalar");
    (sa * sb).to_bytes().to_vec()
}

/// Relies on k256 field inversion of a nonzero scalar: the returned
/// value multiplies with the argument to one, modulo the group order.
#[verifier::external_body]
pub(crate) fn scalar_inv(a: &Vec<u8>) -> (r: Vec<u8>)
    requires
        is_reduced_scalar(a@),
        be_val(a@) != 0,
    ensures
        r@ == scalar_inv_of(a@),
        is_reduced_scalar(r@),
        (be_val(r@) * be_val(a@)) % curve_order_value() == 1,
        be_val(r@) != 0,
{
    let sa = Option::<k256::Scalar>::from(<k256::Scalar as k256::elliptic_curve::PrimeField>::from_repr(
        *k256::FieldBytes::from_slice(a.as_slice()),
    )).expect("reduced scalar");
    let x: Option<k256::Scalar> = k256::elliptic_curve::Field::invert(&sa).into();
    x.expect("nonzero scalars invert").to_bytes().to_vec()
}

/// Relies on k256 scalar-point multiplication: the product of a nonzero
/// scalar and a point of the prime-order curve is again a point.
#[verifier::external_body]
pub(crate) fn point_mul(scalar: &Vec<u8>, point: &Vec<u8>) -> (r: Vec<u8>)
    requires
        is_reduced_scalar(scalar@),
        be_val(scalar@) != 0,
        point@.len() == 64,
        is_point(point@),
    ensures
        r@ == point_mul_of(scalar@, point@),
        r@.len() == 64,
        is_point(r@),
{
    let ep = k256::EncodedPoint::from_untagged_bytes(
        k256::elliptic_curve::generic_array::GenericArray::from_slice(point.as_slice()),
    );
    let pp = Option::<k256::PublicKey>::from(<k256::PublicKey as k256::elliptic_curve::sec1::FromEncodedPoint<
        k256::Secp256k1,
    >>::from_encoded_point(&ep)).expect("curve point").to_projective();
    let sk = Option::<k256::Scalar>::from(<k256::Scalar as k256::elliptic_curve::PrimeField>::from_repr(
        *k256::FieldBytes::from_slice(scalar.as_slice()),
    )).expect("reduced scalar");
    let prod = (pp * sk).to_affine();
    let enc = k256::elliptic_curve::sec1::ToEncodedPoint::to_encoded_point(&prod, false);
    enc.as_bytes()[1..].to_vec()
}

/// Relies on k256 point addition. The sum of two points is a point with
/// a 64-byte encoding unless it is the point at infinity; whether it is
/// depends on the two points alone, and that case yields nothing.
#[verifier::external_body]
pub(crate) fn point_add(p: &Vec<u8>, q: &Vec<u8>) -> (r: Option<Vec<u8>>)
    requires
        p@.len() == 64,
        is_point(p@),
        q@.len() == 64,
        is_point(q@),
    ensures
        r is Some <==> point_sum_defined(p@, q@),
        r matches Some(v) ==> (v@ == point_add_of(p@, q@) && v@.len() == 64 && is_point(v@)),
{
    let ga = k256::elliptic_curve::generic_array::GenericArray::from_slice(p.as_slice());
    let ea = k256::EncodedPoint::from_untagged_bytes(ga);
    let pa = k256::AffinePoint::try_from(&ea).expect("curve point");
    let gb = k256::elliptic_curve::generic_array::GenericArray::from_slice(q.as_slice());
    let eb = k256::EncodedPoint::from_untagged_bytes(gb);
    let pb = k256::AffinePoint::try_from(&eb).expect("curve point");
    let sum = k256::ProjectivePoint::from(pa) + k256::ProjectivePoint::from(pb);
    if bool::from(k256::elliptic_curve::Group::is_identity(&sum)) {
        return None;
    }
    let enc = k256::elliptic_curve::sec1::ToEncodedPoint::to_encoded_point(&sum.to_affine(), false);
    Some(enc.as_bytes()[1..].to_vec())
}

/// Relies on k256: the public point of a nonzero scalar, `scalar * G`.
/// This is the same point that `public_of` names for a secret.
#[verifier::external_body]
pub(crate) fn generator_mul(scalar: &Vec<u8>) -> (r: Vec<u8>)
    requires
        is_reduced_scalar(scalar@),
        be_val(scalar@) != 0,
    ensures
        r@ == public_of(scalar@),
        r@.len() == 64,
        is_point(r@),
{
    let sk = Option::<k256::Scalar>::from(<k256::Scalar as k256::elliptic_curve::PrimeField>::from_repr(
        *k256::FieldBytes::from_slice(scalar.as_slice()),
    )).expect("reduced scalar");
    let prod = (k256::ProjectivePoint::GENERATOR * sk).to_affine();
    let enc = k256::elliptic_curve::sec1::ToEncodedPoint::to_encoded_point(&prod, false);
    enc.as_bytes()[1..].to_vec()
}

/// Relies on `rand_core::OsRng` and k256: a fresh nonzero scalar. Nothing
/// is assumed about which one.
#[verifier::external_body]
pub(crate) fn random_scalar() -> (r: Vec<u8>)
    ensures
        is_reduced_scalar(r@),
        be_val(r@) != 0,
        is_scalar_bytes(r@),
{
    let sk = k256::SecretKey::random(&mut rand_core::OsRng);
    sk.to_bytes().to_vec()
}

/// Relies on `k256::ecdsa::SigningKey::sign_prehash_recoverable`: a
/// 65-byte recoverable signature over a 32-byte message, deterministic
/// by its derived nonces, whose recovery id is chosen so that
/// `VerifyingKey::recover_from_prehash` yields the signer's public key.
/// The signer refuses the rare draws that would give a degenerate
/// signature; nothing is claimed of that case.
#[verifier::external_body]
pub(crate) fn sign_message(secret: &Vec<u8>, message: &Vec<u8>) -> (r: Option<Vec<u8>>)
    requires
        is_scalar_bytes(secret@),
        message@.len() == 32,
    ensures
        r matches Some(sig) ==> ({
            &&& sig@ == signature_of(secret@, message@)
            &&& sig@.len() == 65
            &&& recovered_public(sig@, message@) == Some(public_of(secret@))
        }),
{
    let sk = k256::ecdsa::SigningKey::from_slice(secret.as_slice()).expect("scalar is in range");
    let (sig, rid) = sk.sign_prehash_recoverable(message.as_slice()).ok()?;
    let mut out = sig.to_bytes().to_vec();
    out.push(rid.to_byte());
    Some(out)
}

/// A long-term or link key pair: the secret scalar and its public key.
#[derive(Debug, Clone)]
pub struct KeyPair {
    secret: Vec<u8>,
    public: Vec<u8>,
}

impl KeyPair {
    /// The secret bytes.
    pub closed spec fn secret_spec(self) -> Seq<u8> {
        self.secret@
    }

    /// The public bytes.
    pub closed spec fn public_spec(self) -> Seq<u8> {
        self.public@
    }

    /// A key pair holds a scalar in range and the public key that belongs
    /// to it.
    pub open spec fn wf(self) -> bool {
        &&& is_scalar_bytes(self.secret_spec())
        &&& self.public_spec() == public_of(self.secret_spec())
        &&& self.public_spec().len() == 64
        &&& is_point(self.public_spec())
    }

    /// Build a key pair from secret bytes; rejected with a cryptographic
    /// error when the bytes are not a scalar in `[1, order)`.
    pub fn from_secret_slice(secret: &[u8]) -> (r: Result<KeyPair, Error>)
        ensures
            is_scalar_bytes(secret@) <==> r is Ok,
            r matches Ok(kp) ==> kp.wf() && kp.secret_spec() == secret@,
            r matches Err(e) ==> e matches Error::EthKey(_),
    {
        if !check_scalar_bytes(secret) {
            return Err(Error::EthKey(invalid_secret_string()));
        }
        let secret: Vec<u8> = vstd::slice::slice_to_vec(secret);
        let public = secret_to_public(&secret);
        Ok(KeyPair { secret, public })
    }

    /// The secret scalar bytes.
    pub fn secret(&self) -> (r: &Vec<u8>)
        ensures
            r@ == self.secret_spec(),
    {
        &self.secret
    }

    /// The public key bytes.
    pub fn public(&self) -> (r: &Vec<u8>)
        ensures
            r@ == self.public_spec(),
    {
        &self.public
    }
}

/// Error text for secret bytes outside the scalar range.
fn invalid_secret_string() -> (r: String)
    ensures
        r@ == "invalid secret"@,
{
    "invalid secret".to_owned()
}

} // verus!
