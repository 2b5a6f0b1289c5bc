//! Scalar-field math of the threshold scheme: polynomial sampling and
//! evaluation, Lagrange coefficients at zero, and share combination, over
//! the named field and curve operations.
//!
//! Scalars are 32 reduced big-endian bytes; node id numbers are nonzero
//! scalars; points are 64 untagged bytes.

use vstd::prelude::*;
use crate::crypto::{
    generator_mul, is_point, is_reduced_scalar, point_add, point_add_of, point_mul, point_mul_of,
    point_sum_defined, public_of, random_scalar, scalar_add, scalar_add_of, scalar_inv,
    scalar_inv_of, scalar_mul, scalar_mul_of, scalar_sub, scalar_sub_of,
};
use crate::key_server_cluster::Error;
use crate::u256::{be_val, u256_from_be_bytes};

verus! {

/// The 32 bytes of scalar zero.
pub open spec fn zero_scalar() -> Seq<u8> {
    Seq::new(32, |i: int| 0u8)
}

/// The 32 bytes of scalar one.
pub open spec fn one_scalar() -> Seq<u8> {
    Seq::new(32, |i: int| if i == 31 { 1u8 } else { 0u8 })
}

/// A zero byte string stands for zero.
proof fn lemma_be_val_zeros(s: Seq<u8>)
    requires
        forall|i: int| 0 <= i < s.len() ==> s[i] == 0,
    ensures
        be_val(s) == 0,
    decreases s.len(),
{
    if s.len() > 0 {
        lemma_be_val_zeros(s.drop_last());
    }
}

/// The bytes of scalar zero.
pub fn scalar_zero() -> (r: Vec<u8>)
    ensures
        r@ == zero_scalar(),
        is_reduced_scalar(r@),
        be_val(r@) == 0,
{
    let mut v: Vec<u8> = Vec::new();
    let mut i: usize = 0;
    while i < 32
        invariant
            0 <= i <= 32,
            v@.len() == i,
            forall|j: int| 0 <= j < i ==> v@[j] == 0,
        decreases 32 - i,
    {
        v.push(0);
        i = i + 1;
    }
    proof {
        assert(v@ =~= zero_scalar());
        lemma_be_val_zeros(v@);
    }
    v
}

/// The bytes of scalar one.
pub fn scalar_one() -> (r: Vec<u8>)
    ensures
        r@ == one_scalar(),
        is_reduced_scalar(r@),
        be_val(r@) == 1,
{
    let mut v: Vec<u8> = Vec::new();
    let mut i: usize = 0;
    while i < 31
        invariant
            0 <= i <= 31,
            v@.len() == i,
            forall|j: int| 0 <= j < i ==> v@[j] == 0,
        decreases 31 - i,
    {
        v.push(0);
        i = i + 1;
    }
    v.push(1);
    proof {
        assert(v@ =~= one_scalar());
        lemma_be_val_zeros(v@.drop_last());
    }
    v
}

/// Every entry is a reduced scalar.
pub open spec fn all_reduced(s: Seq<Seq<u8>>) -> bool {
    forall|i: int| 0 <= i < s.len() ==> is_reduced_scalar(#[trigger] s[i])
}

/// Every entry is a nonzero reduced scalar.
pub open spec fn all_nonzero(s: Seq<Seq<u8>>) -> bool {
    forall|i: int| 0 <= i < s.len() ==> be_val(#[trigger] s[i]) != 0
}

/// Every entry is a curve point.
pub open spec fn all_points(s: Seq<Seq<u8>>) -> bool {
    forall|i: int|
        0 <= i < s.len() ==> (#[trigger] s[i]).len() == 64 && is_point(s[i])
}

/// The value of the polynomial with the given coefficients (constant
/// term first) at `x`, by Horner's rule.
pub open spec fn poly_eval_spec(coeffs: Seq<Seq<u8>>, x: Seq<u8>) -> Seq<u8>
    decreases coeffs.len(),
{
    if coeffs.len() == 0 {
        zero_scalar()
    } else {
        scalar_add_of(coeffs[0], scalar_mul_of(x, poly_eval_spec(coeffs.skip(1), x)))
    }
}

/// Evaluate a polynomial over the scalar field at `x`.
pub fn evaluate_polynomial(coeffs: &Vec<Vec<u8>>, x: &Vec<u8>) -> (r: Vec<u8>)
    requires
        all_reduced(coeffs.deep_view()),
        is_reduced_scalar(x@),
    ensures
        r@ == poly_eval_spec(coeffs.deep_view(), x@),
        is_reduced_scalar(r@),
{
    let mut acc = scalar_zero();
    let mut i: usize = coeffs.len();
    proof {
        assert(coeffs.deep_view().skip(i as int) =~= Seq::<Seq<u8>>::empty());
    }
    while i > 0
        invariant
            0 <= i <= coeffs.deep_view().len(),
            coeffs.deep_view().len() == coeffs@.len(),
            all_reduced(coeffs.deep_view()),
            is_reduced_scalar(x@),
            is_reduced_scalar(acc@),
            acc@ == poly_eval_spec(coeffs.deep_view().skip(i as int), x@),
        decreases i,
    {
        i = i - 1;
        proof {
            let tail = coeffs.deep_view().skip(i as int);
            assert(coeffs@[i as int]@ =~= coeffs.deep_view()[i as int]);
            assert(tail[0] == coeffs.deep_view()[i as int]);
            assert(tail.skip(1) =~= coeffs.deep_view().skip(i + 1 as int));
        }
        let product = scalar_mul(x, &acc);
        acc = scalar_add(&coeffs[i], &product);
    }
    proof {
        assert(coeffs.deep_view().skip(0) =~= coeffs.deep_view());
    }
    acc
}

/// Sample a random polynomial of the given degree: `degree + 1` fresh
/// nonzero coefficients.
pub fn generate_random_polynomial(degree: usize) -> (r: Vec<Vec<u8>>)
    requires
        degree < usize::MAX,
    ensures
        r.deep_view().len() == degree + 1,
        all_reduced(r.deep_view()),
        all_nonzero(r.deep_view()),
{
    let mut coeffs: Vec<Vec<u8>> = Vec::new();
    let mut i: usize = 0;
    while i <= degree
        invariant
            degree < usize::MAX,
            0 <= i <= degree + 1,
            coeffs.deep_view().len() == i,
            all_reduced(coeffs.deep_view()),
            all_nonzero(coeffs.deep_view()),
        decreases degree + 1 - i,
    {
        let ghost prev = coeffs.deep_view();
        let c = random_scalar();
        coeffs.push(c);
        proof {
            assert(coeffs.deep_view() =~~= prev.push(c@));
        }
        i = i + 1;
    }
    coeffs
}

/// The partial Lagrange coefficient for position `i`, over the first `k`
/// ids: the product of `id_j / (id_j - id_i)` for `j < k`, `j != i`.
pub open spec fn lagrange_coeff_partial(ids: Seq<Seq<u8>>, i: int, k: int) -> Seq<u8>
    decreases k,
{
    if k <= 0 {
        one_scalar()
    } else if k - 1 == i {
        lagrange_coeff_partial(ids, i, k - 1)
    } else {
        scalar_mul_of(
            lagrange_coeff_partial(ids, i, k - 1),
            scalar_mul_of(ids[k - 1], scalar_inv_of(scalar_sub_of(ids[k - 1], ids[i]))),
        )
    }
}

/// The Lagrange basis coefficient at zero for position `i` of the id set.
pub open spec fn lagrange_coeff_at_zero(ids: Seq<Seq<u8>>, i: int) -> Seq<u8> {
    lagrange_coeff_partial(ids, i, ids.len() as int)
}

/// Two ids of the set stand for the same scalar.
pub open spec fn has_duplicate_for(ids: Seq<Seq<u8>>, i: int) -> bool {
    exists|j: int| 0 <= j < ids.len() && j != i && ids[j] == ids[i]
}

/// Compute the Lagrange basis coefficient at zero for position `i`.
/// A duplicate id makes a denominator zero and is rejected as an invalid
/// node configuration.
pub fn compute_lagrange_coeff(ids: &Vec<Vec<u8>>, i: usize) -> (r: Result<Vec<u8>, Error>)
    requires
        i < ids.deep_view().len(),
        all_reduced(ids.deep_view()),
        all_nonzero(ids.deep_view()),
    ensures
        r is Ok <==> !has_duplicate_for(ids.deep_view(), i as int),
        r matches Ok(c) ==> ({
            &&& c@ == lagrange_coeff_at_zero(ids.deep_view(), i as int)
            &&& is_reduced_scalar(c@)
            &&& be_val(c@) != 0
        }),
        r matches Err(e) ==> e == Error::InvalidNodesConfiguration,
{
    let ghost dv = ids.deep_view();
    let mut acc = scalar_one();
    let mut j: usize = 0;
    while j < ids.len()
        invariant
            0 <= j <= dv.len(),
            dv == ids.deep_view(),
            dv.len() == ids@.len(),
            i < dv.len(),
            all_reduced(dv),
            all_nonzero(dv),
            acc@ == lagrange_coeff_partial(dv, i as int, j as int),
            is_reduced_scalar(acc@),
            be_val(acc@) != 0,
            forall|j2: int| 0 <= j2 < j && j2 != i ==> dv[j2] != dv[i as int],
        decreases dv.len() - j,
    {
        proof {
            assert(ids@[j as int]@ =~= dv[j as int]);
            assert(ids@[i as int]@ =~= dv[i as int]);
        }
        if j != i {
            let diff = scalar_sub(&ids[j], &ids[i]);
            let dv256 = u256_from_be_bytes(diff.as_slice());
            if dv256.is_zero() {
                proof {
                    assert(dv[j as int] == dv[i as int]);
                }
                return Err(Error::InvalidNodesConfiguration);
            }
            let inv = scalar_inv(&diff);
            let factor = scalar_mul(&ids[j], &inv);
            acc = scalar_mul(&acc, &factor);
        }
        j = j + 1;
    }
    Ok(acc)
}

/// The sum of `values[j] * coeff(j)` over the first `k` positions: the
/// Lagrange interpolation at zero, partially.
pub open spec fn interpolate_partial(ids: Seq<Seq<u8>>, values: Seq<Seq<u8>>, k: int) -> Seq<u8>
    decreases k,
{
    if k <= 0 {
        zero_scalar()
    } else {
        scalar_add_of(
            interpolate_partial(ids, values, k - 1),
            scalar_mul_of(values[k - 1], lagrange_coeff_at_zero(ids, k - 1)),
        )
    }
}

/// The Lagrange interpolation at zero of the shares `values` at `ids`:
/// the joint secret that any `t+1` correct shares reconstruct.
pub open spec fn interpolate_at_zero_spec(ids: Seq<Seq<u8>>, values: Seq<Seq<u8>>) -> Seq<u8> {
    interpolate_partial(ids, values, ids.len() as int)
}

/// Some id of the set collides with another.
pub open spec fn has_duplicate(ids: Seq<Seq<u8>>) -> bool {
    exists|i: int| 0 <= i < ids.len() && has_duplicate_for(ids, i)
}

/// The field sum of the first `k` scalars.
pub open spec fn sum_scalars_partial(values: Seq<Seq<u8>>, k: int) -> Seq<u8>
    decreases k,
{
    if k <= 0 {
        zero_scalar()
    } else {
        scalar_add_of(sum_scalars_partial(values, k - 1), values[k - 1])
    }
}

/// The field sum of a set of scalars: how a node folds the share
/// evaluations it received into its own secret share.
pub open spec fn sum_scalars_spec(values: Seq<Seq<u8>>) -> Seq<u8> {
    sum_scalars_partial(values, values.len() as int)
}

/// Sum the received share evaluations into this node's secret share.
pub fn compute_secret_share(values: &Vec<Vec<u8>>) -> (r: Vec<u8>)
    requires
        all_reduced(values.deep_view()),
    ensures
        r@ == sum_scalars_spec(values.deep_view()),
        is_reduced_scalar(r@),
{
    let ghost vv = values.deep_view();
    let mut acc = scalar_zero();
    let mut k: usize = 0;
    while k < values.len()
        invariant
            0 <= k <= vv.len(),
            vv == values.deep_view(),
            vv.len() == values@.len(),
            all_reduced(vv),
            acc@ == sum_scalars_partial(vv, k as int),
            is_reduced_scalar(acc@),
        decreases vv.len() - k,
    {
        proof {
            assert(values@[k as int]@ =~= vv[k as int]);
        }
        acc = scalar_add(&acc, &values[k]);
        k = k + 1;
    }
    acc
}

/// The fold of point additions over the first `k` points.
pub open spec fn sum_points_partial(points: Seq<Seq<u8>>, k: int) -> Seq<u8>
    decreases k,
{
    if k <= 1 {
        points[0]
    } else {
        point_add_of(sum_points_partial(points, k - 1), points[k - 1])
    }
}

/// The sum of a nonempty set of curve points: how partial decryptions are
/// combined into the document key point.
pub open spec fn sum_points_spec(points: Seq<Seq<u8>>) -> Seq<u8> {
    sum_points_partial(points, points.len() as int)
}

/// Every partial sum of the point fold over the first `k` points has a
/// 64-byte encoding: none hits the point at infinity.
pub open spec fn sums_defined(points: Seq<Seq<u8>>, k: int) -> bool
    decreases k,
{
    if k <= 1 {
        true
    } else {
        sums_defined(points, k - 1) && point_sum_defined(
            sum_points_partial(points, k - 1),
            points[k - 1],
        )
    }
}

/// When every partial sum up to `m` is defined, so is every shorter
/// prefix.
proof fn lemma_sums_defined_prefix(points: Seq<Seq<u8>>, k: int, m: int)
    requires
        1 <= k <= m,
        sums_defined(points, m),
    ensures
        sums_defined(points, k),
    decreases m,
{
    if k < m {
        lemma_sums_defined_prefix(points, k, m - 1);
    }
}

/// Add up curve points. The combination succeeds exactly when no partial
/// sum hits the point at infinity (which has no 64-byte encoding); that
/// case is rejected as an invalid message.
pub fn combine_points(points: &Vec<Vec<u8>>) -> (r: Result<Vec<u8>, Error>)
    requires
        points.deep_view().len() >= 1,
        all_points(points.deep_view()),
    ensures
        r is Ok <==> sums_defined(points.deep_view(), points.deep_view().len() as int),
        r matches Ok(v) ==> ({
            &&& v@ == sum_points_spec(points.deep_view())
            &&& v@.len() == 64
            &&& is_point(v@)
        }),
        r matches Err(e) ==> e == Error::InvalidMessage,
{
    let ghost dv = points.deep_view();
    proof {
        assert(points@[0]@ =~= dv[0]);
    }
    let mut acc: Vec<u8> = points[0].clone();
    let mut k: usize = 1;
    proof {
        assert(acc@ == sum_points_partial(dv, 1));
    }
    while k < points.len()
        invariant
            1 <= k <= dv.len(),
            dv == points.deep_view(),
            dv.len() == points@.len(),
            all_points(dv),
            acc@ == sum_points_partial(dv, k as int),
            acc@.len() == 64,
            is_point(acc@),
            sums_defined(dv, k as int),
        decreases dv.len() - k,
    {
        proof {
            assert(points@[k as int]@ =~= dv[k as int]);
        }
        let next = match point_add(&acc, &points[k]) {
            Some(v) => v,
            None => {
                proof {
                    assert(!sums_defined(dv, k + 1));
                    if sums_defined(dv, dv.len() as int) {
                        lemma_sums_defined_prefix(dv, k + 1, dv.len() as int);
                    }
                }
                return Err(Error::InvalidMessage);
            },
        };
        acc = next;
        k = k + 1;
    }
    Ok(acc)
}

/// The Lagrange combination at zero of the first `k` public shares:
/// each share point scaled by its basis coefficient, summed.
pub open spec fn interpolate_points_partial(
    ids: Seq<Seq<u8>>,
    points: Seq<Seq<u8>>,
    k: int,
) -> Seq<u8>
    decreases k,
{
    if k <= 1 {
        point_mul_of(lagrange_coeff_at_zero(ids, 0), points[0])
    } else {
        point_add_of(
            interpolate_points_partial(ids, points, k - 1),
            point_mul_of(lagrange_coeff_at_zero(ids, k - 1), points[k - 1]),
        )
    }
}

/// The Lagrange interpolation at zero of all public shares: the joint
/// public key of the generated document key.
pub open spec fn interpolate_points_spec(ids: Seq<Seq<u8>>, points: Seq<Seq<u8>>) -> Seq<u8> {
    interpolate_points_partial(ids, points, ids.len() as int)
}

/// Every partial sum of the point interpolation over the first `k`
/// positions has a 64-byte encoding: none hits the point at infinity.
pub open spec fn interpolate_points_defined(
    ids: Seq<Seq<u8>>,
    points: Seq<Seq<u8>>,
    k: int,
) -> bool
    decreases k,
{
    if k <= 1 {
        true
    } else {
        interpolate_points_defined(ids, points, k - 1) && point_sum_defined(
            interpolate_points_partial(ids, points, k - 1),
            point_mul_of(lagrange_coeff_at_zero(ids, k - 1), points[k - 1]),
        )
    }
}

/// When every partial sum of the interpolation up to `m` is defined, so
/// is every shorter prefix.
proof fn lemma_interpolate_points_defined_prefix(
    ids: Seq<Seq<u8>>,
    points: Seq<Seq<u8>>,
    k: int,
    m: int,
)
    requires
        1 <= k <= m,
        interpolate_points_defined(ids, points, m),
    ensures
        interpolate_points_defined(ids, points, k),
    decreases m,
{
    if k < m {
        lemma_interpolate_points_defined_prefix(ids, points, k, m - 1);
    }
}

/// Interpolate the public shares at zero: the joint public key that any
/// quorum of public shares determines. The interpolation succeeds exactly
/// when no id collides and no partial sum hits the point at infinity; a
/// duplicate id is an invalid node configuration, an undefined sum an
/// invalid message.
pub fn interpolate_points_at_zero(ids: &Vec<Vec<u8>>, points: &Vec<Vec<u8>>) -> (r: Result<
    Vec<u8>,
    Error,
>)
    requires
        ids.deep_view().len() == points.deep_view().len(),
        ids.deep_view().len() >= 1,
        all_reduced(ids.deep_view()),
        all_nonzero(ids.deep_view()),
        all_points(points.deep_view()),
    ensures
        r is Ok <==> (!has_duplicate(ids.deep_view()) && interpolate_points_defined(
            ids.deep_view(),
            points.deep_view(),
            ids.deep_view().len() as int,
        )),
        r matches Ok(v) ==> ({
            &&& v@ == interpolate_points_spec(ids.deep_view(), points.deep_view())
            &&& v@.len() == 64
            &&& is_point(v@)
        }),
        r matches Err(e) ==> (e == Error::InvalidNodesConfiguration || e == Error::InvalidMessage),
        (r matches Err(e) && e == Error::InvalidNodesConfiguration) ==> has_duplicate(
            ids.deep_view(),
        ),
        (r matches Err(e) && e == Error::InvalidMessage) ==> !interpolate_points_defined(
            ids.deep_view(),
            points.deep_view(),
            ids.deep_view().len() as int,
        ),
{
    let ghost dv = ids.deep_view();
    let ghost pv = points.deep_view();
    let coeff0 = match compute_lagrange_coeff(ids, 0) {
        Ok(c) => c,
        Err(e) => {
            proof {
                assert(has_duplicate(dv));
            }
            return Err(e);
        },
    };
    proof {
        assert(points@[0]@ =~= pv[0]);
    }
    let mut acc = point_mul(&coeff0, &points[0]);
    let mut k: usize = 1;
    while k < ids.len()
        invariant
            1 <= k <= dv.len(),
            dv == ids.deep_view(),
            pv == points.deep_view(),
            dv.len() == ids@.len(),
            pv.len() == dv.len(),
            all_reduced(dv),
            all_nonzero(dv),
            all_points(pv),
            acc@ == interpolate_points_partial(dv, pv, k as int),
            acc@.len() == 64,
            is_point(acc@),
            interpolate_points_defined(dv, pv, k as int),
            forall|i2: int| 0 <= i2 < k ==> !has_duplicate_for(dv, i2),
        decreases dv.len() - k,
    {
        let coeff = match compute_lagrange_coeff(ids, k) {
            Ok(c) => c,
            Err(e) => {
                proof {
                    assert(has_duplicate(dv));
                }
                return Err(e);
            },
        };
        proof {
            assert(points@[k as int]@ =~= pv[k as int]);
        }
        let term = point_mul(&coeff, &points[k]);
        let next = match point_add(&acc, &term) {
            Some(v) => v,
            None => {
                proof {
                    assert(!interpolate_points_defined(dv, pv, k + 1));
                    if interpolate_points_defined(dv, pv, dv.len() as int) {
                        lemma_interpolate_points_defined_prefix(dv, pv, k + 1, dv.len() as int);
                    }
                }
                return Err(Error::InvalidMessage);
            },
        };
        acc = next;
        k = k + 1;
    }
    Ok(acc)
}

/// One node's partial decryption: its secret share scaled by the
/// Lagrange basis coefficient of the chosen participant set, applied to
/// the common point of the stored key. Inputs out of shape — a scalar
/// out of range or zero, or bytes that are not a curve point — are
/// recognized as an invalid message.
pub fn compute_partial_decryption(
    secret_share: &Vec<u8>,
    coeff: &Vec<u8>,
    common_point: &Vec<u8>,
) -> (r: Result<Vec<u8>, Error>)
    ensures
        r is Ok <==> (crate::crypto::is_scalar_bytes(secret_share@)
            && crate::crypto::is_scalar_bytes(coeff@) && common_point@.len() == 64 && is_point(
            common_point@,
        )),
        r matches Ok(v) ==> ({
            &&& v@ == point_mul_of(scalar_mul_of(secret_share@, coeff@), common_point@)
            &&& v@.len() == 64
            &&& is_point(v@)
        }),
        r matches Err(e) ==> e == Error::InvalidMessage,
{
    if !crate::crypto::check_scalar_bytes(secret_share.as_slice()) {
        return Err(Error::InvalidMessage);
    }
    if !crate::crypto::check_scalar_bytes(coeff.as_slice()) {
        return Err(Error::InvalidMessage);
    }
    if common_point.len() != 64 {
        return Err(Error::InvalidMessage);
    }
    if !crate::crypto::is_valid_public(common_point) {
        return Err(Error::InvalidMessage);
    }
    let k = scalar_mul(secret_share, coeff);
    Ok(point_mul(&k, common_point))
}

/// The point against which a disseminated share is checked: the public
/// polynomial evaluated at the holder's id number,
/// `C_0 + id * C_1 + id^2 * C_2 + ...` over the published coefficient
/// points.
pub open spec fn public_poly_partial(coeff_points: Seq<Seq<u8>>, id: Seq<u8>, k: int) -> Seq<u8>
    decreases k,
{
    if k <= 1 {
        coeff_points[0]
    } else {
        point_add_of(
            public_poly_partial(coeff_points, id, k - 1),
            point_mul_of(id_power(id, k - 1), coeff_points[k - 1]),
        )
    }
}

/// The `k`-th power of an id number.
pub open spec fn id_power(id: Seq<u8>, k: int) -> Seq<u8>
    decreases k,
{
    if k <= 1 {
        id
    } else {
        scalar_mul_of(id_power(id, k - 1), id)
    }
}

/// The public point of the sender's polynomial at the holder's id.
pub open spec fn public_poly_at(coeff_points: Seq<Seq<u8>>, id: Seq<u8>) -> Seq<u8> {
    public_poly_partial(coeff_points, id, coeff_points.len() as int)
}

/// Every partial sum of the public polynomial over the first `k`
/// coefficients has a 64-byte encoding: none hits the point at infinity.
pub open spec fn public_poly_defined(coeff_points: Seq<Seq<u8>>, id: Seq<u8>, k: int) -> bool
    decreases k,
{
    if k <= 1 {
        true
    } else {
        public_poly_defined(coeff_points, id, k - 1) && point_sum_defined(
            public_poly_partial(coeff_points, id, k - 1),
            point_mul_of(id_power(id, k - 1), coeff_points[k - 1]),
        )
    }
}

/// When every partial sum of the public polynomial up to `m` is defined,
/// so is every shorter prefix.
proof fn lemma_public_poly_defined_prefix(coeff_points: Seq<Seq<u8>>, id: Seq<u8>, k: int, m: int)
    requires
        1 <= k <= m,
        public_poly_defined(coeff_points, id, m),
    ensures
        public_poly_defined(coeff_points, id, k),
    decreases m,
{
    if k < m {
        lemma_public_poly_defined_prefix(coeff_points, id, k, m - 1);
    }
}

/// Verify a disseminated secret share against the sender's published
/// polynomial coefficients: the share's public point must equal the
/// public polynomial at the holder's id number. The check succeeds
/// exactly when no partial sum of the public polynomial hits the point
/// at infinity; that case is rejected as an invalid message.
pub fn verify_secret_share(share: &Vec<u8>, id: &Vec<u8>, coeff_points: &Vec<Vec<u8>>) -> (r:
    Result<bool, Error>)
    requires
        is_reduced_scalar(share@),
        be_val(share@) != 0,
        is_reduced_scalar(id@),
        be_val(id@) != 0,
        coeff_points.deep_view().len() >= 1,
        all_points(coeff_points.deep_view()),
    ensures
        r is Ok <==> public_poly_defined(
            coeff_points.deep_view(),
            id@,
            coeff_points.deep_view().len() as int,
        ),
        r matches Ok(b) ==> b == (public_of(share@) == public_poly_at(
            coeff_points.deep_view(),
            id@,
        )),
        r matches Err(e) ==> e == Error::InvalidMessage,
{
    let ghost dv = coeff_points.deep_view();
    proof {
        assert(coeff_points@[0]@ =~= dv[0]);
    }
    let mut acc: Vec<u8> = coeff_points[0].clone();
    let mut xpow: Vec<u8> = id.clone();
    let mut k: usize = 1;
    while k < coeff_points.len()
        invariant
            1 <= k <= dv.len(),
            dv == coeff_points.deep_view(),
            dv.len() == coeff_points@.len(),
            all_points(dv),
            is_reduced_scalar(id@),
            be_val(id@) != 0,
            acc@ == public_poly_partial(dv, id@, k as int),
            acc@.len() == 64,
            is_point(acc@),
            xpow@ == id_power(id@, k as int),
            is_reduced_scalar(xpow@),
            be_val(xpow@) != 0,
            public_poly_defined(dv, id@, k as int),
        decreases dv.len() - k,
    {
        proof {
            assert(coeff_points@[k as int]@ =~= dv[k as int]);
        }
        let term = point_mul(&xpow, &coeff_points[k]);
        let next = match point_add(&acc, &term) {
            Some(v) => v,
            None => {
                proof {
                    assert(!public_poly_defined(dv, id@, k + 1));
                    if public_poly_defined(dv, id@, dv.len() as int) {
                        lemma_public_poly_defined_prefix(dv, id@, k + 1, dv.len() as int);
                    }
                }
                return Err(Error::InvalidMessage);
            },
        };
        acc = next;
        xpow = scalar_mul(&xpow, id);
        k = k + 1;
    }
    let share_point = generator_mul(share);
    Ok(crate::util::bytes_eq(share_point.as_slice(), acc.as_slice()))
}

/// Interpolate the shares at zero: Shamir reconstruction of the joint
/// secret. A duplicate id is rejected as an invalid node configuration.
pub fn interpolate_at_zero(ids: &Vec<Vec<u8>>, values: &Vec<Vec<u8>>) -> (r: Result<Vec<u8>, Error>)
    requires
        ids.deep_view().len() == values.deep_view().len(),
        all_reduced(ids.deep_view()),
        all_nonzero(ids.deep_view()),
        all_reduced(values.deep_view()),
    ensures
        r is Ok <==> !has_duplicate(ids.deep_view()),
        r matches Ok(v) ==> ({
            &&& v@ == interpolate_at_zero_spec(ids.deep_view(), values.deep_view())
            &&& is_reduced_scalar(v@)
        }),
        r matches Err(e) ==> e == Error::InvalidNodesConfiguration,
{
    let ghost dv = ids.deep_view();
    let ghost vv = values.deep_view();
    let mut acc = scalar_zero();
    let mut k: usize = 0;
    while k < ids.len()
        invariant
            0 <= k <= dv.len(),
            dv == ids.deep_view(),
            vv == values.deep_view(),
            dv.len() == ids@.len(),
            vv.len() == dv.len(),
            all_reduced(dv),
            all_nonzero(dv),
            all_reduced(vv),
            acc@ == interpolate_partial(dv, vv, k as int),
            is_reduced_scalar(acc@),
            forall|i2: int| 0 <= i2 < k ==> !has_duplicate_for(dv, i2),
        decreases dv.len() - k,
    {
        let coeff = match compute_lagrange_coeff(ids, k) {
            Ok(c) => c,
            Err(e) => {
                return Err(e);
            },
        };
        proof {
            assert(values@[k as int]@ =~= vv[k as int]);
        }
        let term = scalar_mul(&values[k], &coeff);
        acc = scalar_add(&acc, &term);
        k = k + 1;
    }
    Ok(acc)
}

} // verus!
