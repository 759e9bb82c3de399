//! The 2x2 matrix and the hex-grid coordinate pipeline.

use vecmat::fixed::Fix;
use vecmat::fixed::FRAC_ONE;
use vecmat::functions::sqrt;
use vecmat::grid::from_euclidean;
use vecmat::grid::hex_id;
use vecmat::grid::to_euclidean;
use vecmat::mat2::mat2;
use vecmat::vec2::vec2;

fn fx(n: i64) -> Fix {
    Fix::from_int(n)
}

/// Absolute difference of two scalars, in representation units.
fn dist(a: Fix, b: Fix) -> i64 {
    (a.bits - b.bits).abs()
}

/// One nanounit of tolerance: `1e-9` in representation units.
const TOL: i64 = 1100;

#[test]
fn matrix_accessors() {
    let m = mat2((fx(1), fx(2), fx(3), fx(4)));
    assert_eq!(m.m11(), fx(1));
    assert_eq!(m.m21(), fx(2));
    assert_eq!(m.m12(), fx(3));
    assert_eq!(m.m22(), fx(4));
    assert_eq!(m.mx1, vec2((fx(1), fx(2))));
    assert_eq!(m.mx2, vec2((fx(3), fx(4))));
}

#[test]
fn matrix_vector_product() {
    let m = mat2((fx(1), fx(2), fx(3), fx(4)));
    assert_eq!(m.multiply(vec2((fx(5), fx(6)))), vec2((fx(23), fx(34))));
}

#[test]
fn matrix_identity() {
    let m = mat2((fx(1), fx(0), fx(0), fx(1)));
    let v = vec2((fx(5), fx(7)));
    assert_eq!(m.multiply(v), v);
}

#[test]
fn coordinate_round_trip() {
    let out = from_euclidean(to_euclidean(vec2((fx(1), fx(0)))));
    assert!(dist(out.x, fx(1)) <= TOL);
    assert!(dist(out.y, fx(0)) <= TOL);
}

#[test]
fn hex_cell_id_at_origin() {
    assert_eq!(hex_id(vec2((fx(0), fx(0)))), vec2((fx(0), fx(0))));
}

#[test]
fn hex_cell_id_snaps_to_a_neighbour_center() {
    let s3 = sqrt(fx(3));
    assert_eq!(hex_id(vec2((fx(2), fx(0)))), vec2((s3, fx(0))));
}

#[test]
fn calc_at_origin() {
    assert_eq!(vecmat::grid::calc(vec2((fx(0), fx(0)))), vec2((fx(0), fx(0))));
}

#[test]
fn to_euclidean_exact_first_column() {
    let out = to_euclidean(vec2((fx(1), fx(0))));
    assert_eq!(out.x.bits, 3 * FRAC_ONE / 2);
    assert_eq!(out.y.bits, sqrt(fx(3)).bits / 2);
}
