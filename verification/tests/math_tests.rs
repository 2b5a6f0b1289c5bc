//! Tests of the threshold math: share interpolation from any quorum,
//! share verification against published coefficients, and point
//! combination.

use k256::elliptic_curve::sec1::ToEncodedPoint;
use secret_store::key_server_cluster::Error;
use secret_store::math::{
    combine_points, compute_lagrange_coeff, evaluate_polynomial, generate_random_polynomial,
    interpolate_at_zero, verify_secret_share,
};

fn scalar(tag: u64) -> Vec<u8> {
    let mut b = vec![0u8; 32];
    b[24..].copy_from_slice(&tag.to_be_bytes());
    b
}

fn point_of(scalar_bytes: &[u8]) -> Vec<u8> {
    let sk = k256::SecretKey::from_slice(scalar_bytes).unwrap();
    sk.public_key().to_encoded_point(false).as_bytes()[1..].to_vec()
}

/// Shares of a random degree-`t` polynomial at ids `1..=n`: any `t + 1`
/// of them interpolate to the same joint secret, the polynomial's
/// constant term.
#[test]
fn any_quorum_reconstructs_the_same_secret() {
    let threshold = 1usize;
    let n = 3usize;
    let poly = generate_random_polynomial(threshold);
    let ids: Vec<Vec<u8>> = (1..=n as u64).map(scalar).collect();
    let shares: Vec<Vec<u8>> = ids.iter().map(|id| evaluate_polynomial(&poly, id)).collect();

    let quorums: [[usize; 2]; 3] = [[0, 1], [0, 2], [1, 2]];
    let mut results = Vec::new();
    for q in &quorums {
        let q_ids: Vec<Vec<u8>> = q.iter().map(|&i| ids[i].clone()).collect();
        let q_shares: Vec<Vec<u8>> = q.iter().map(|&i| shares[i].clone()).collect();
        results.push(interpolate_at_zero(&q_ids, &q_shares).unwrap());
    }
    assert_eq!(results[0], results[1]);
    assert_eq!(results[0], results[2]);
    // The joint secret is the constant coefficient of the polynomial.
    assert_eq!(results[0], poly[0]);
}

/// With threshold zero and two nodes, one share alone reconstructs.
#[test]
fn zero_threshold_single_share_suffices() {
    let poly = generate_random_polynomial(0);
    let ids: Vec<Vec<u8>> = (1..=2u64).map(scalar).collect();
    let shares: Vec<Vec<u8>> = ids.iter().map(|id| evaluate_polynomial(&poly, id)).collect();
    for i in 0..2 {
        let one =
            interpolate_at_zero(&vec![ids[i].clone()], &vec![shares[i].clone()]).unwrap();
        assert_eq!(one, poly[0]);
    }
}

/// With threshold `n - 1` every node's share is needed: all `n` shares
/// reconstruct, and dropping one yields something else.
#[test]
fn full_threshold_needs_every_share() {
    let n = 3usize;
    let threshold = n - 1;
    let poly = generate_random_polynomial(threshold);
    let ids: Vec<Vec<u8>> = (1..=n as u64).map(scalar).collect();
    let shares: Vec<Vec<u8>> = ids.iter().map(|id| evaluate_polynomial(&poly, id)).collect();

    let all = interpolate_at_zero(&ids, &shares).unwrap();
    assert_eq!(all, poly[0]);

    let fewer = interpolate_at_zero(&ids[..2].to_vec(), &shares[..2].to_vec()).unwrap();
    assert_ne!(fewer, poly[0]);
}

#[test]
fn duplicate_ids_are_rejected() {
    let ids = vec![scalar(5), scalar(5)];
    assert_eq!(
        compute_lagrange_coeff(&ids, 0).unwrap_err(),
        Error::InvalidNodesConfiguration
    );
    let shares = vec![scalar(1), scalar(2)];
    assert_eq!(
        interpolate_at_zero(&ids, &shares).unwrap_err(),
        Error::InvalidNodesConfiguration
    );
}

#[test]
fn share_verification_accepts_honest_and_rejects_forged_shares() {
    let threshold = 2usize;
    let poly = generate_random_polynomial(threshold);
    let coeff_points: Vec<Vec<u8>> = poly.iter().map(|c| point_of(c)).collect();

    let id = scalar(4);
    let share = evaluate_polynomial(&poly, &id);
    assert_eq!(verify_secret_share(&share, &id, &coeff_points).unwrap(), true);

    let forged = evaluate_polynomial(&poly, &scalar(5));
    assert_eq!(verify_secret_share(&forged, &id, &coeff_points).unwrap(), false);
}

/// Interpolating the public shares at zero yields the joint public key:
/// the public point of the polynomial's constant term.
#[test]
fn public_shares_interpolate_to_the_joint_public_key() {
    let threshold = 1usize;
    let n = 3usize;
    let poly = generate_random_polynomial(threshold);
    let ids: Vec<Vec<u8>> = (1..=n as u64).map(scalar).collect();
    let public_shares: Vec<Vec<u8>> = ids
        .iter()
        .map(|id| point_of(&evaluate_polynomial(&poly, id)))
        .collect();

    let joint = secret_store::math::interpolate_points_at_zero(
        &ids[..2].to_vec(),
        &public_shares[..2].to_vec(),
    )
    .unwrap();
    assert_eq!(joint, point_of(&poly[0]));

    let joint_other = secret_store::math::interpolate_points_at_zero(
        &ids[1..].to_vec(),
        &public_shares[1..].to_vec(),
    )
    .unwrap();
    assert_eq!(joint_other, joint);
}

/// Combining the partial decryptions of any quorum yields the same
/// point: the joint secret applied to the common point.
#[test]
fn partial_decryptions_combine_to_the_joint_point() {
    let threshold = 1usize;
    let n = 3usize;
    let poly = generate_random_polynomial(threshold);
    let ids: Vec<Vec<u8>> = (1..=n as u64).map(scalar).collect();
    let shares: Vec<Vec<u8>> = ids.iter().map(|id| evaluate_polynomial(&poly, id)).collect();
    let common_point = point_of(&scalar(4242));

    let mut combined = Vec::new();
    for q in &[[0usize, 1], [1, 2]] {
        let q_ids: Vec<Vec<u8>> = q.iter().map(|&i| ids[i].clone()).collect();
        let mut partials = Vec::new();
        for (pos, &i) in q.iter().enumerate() {
            let coeff = compute_lagrange_coeff(&q_ids, pos).unwrap();
            partials.push(
                secret_store::math::compute_partial_decryption(&shares[i], &coeff, &common_point)
                    .unwrap(),
            );
        }
        combined.push(combine_points(&partials).unwrap());
    }
    assert_eq!(combined[0], combined[1]);

    // The combination is the joint secret applied to the common point.
    let sk = k256::SecretKey::from_slice(&poly[0]).unwrap();
    let cp = k256::SecretKey::from_slice(&scalar(4242)).unwrap();
    let expected = (k256::ProjectivePoint::from(cp.public_key().as_affine().clone())
        * *sk.to_nonzero_scalar().as_ref())
    .to_affine();
    assert_eq!(
        combined[0],
        expected.to_encoded_point(false).as_bytes()[1..].to_vec()
    );
}

/// Summing share evaluations mirrors field addition: 2 + 3 == 5.
#[test]
fn secret_share_is_the_sum_of_received_evaluations() {
    let values = vec![scalar(2), scalar(3)];
    assert_eq!(secret_store::math::compute_secret_share(&values), scalar(5));
}

#[test]
fn combining_points_adds_on_the_curve() {
    // 2*G + 3*G == 5*G.
    let points = vec![point_of(&scalar(2)), point_of(&scalar(3))];
    let sum = combine_points(&points).unwrap();
    assert_eq!(sum, point_of(&scalar(5)));
}
