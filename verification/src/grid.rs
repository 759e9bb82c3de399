//! A hex-grid coordinate consumer of the algebra: conversion between
//! axial and Euclidean coordinates, and the id of the hex cell that
//! contains a point.  It uses only the public vector interface:
//! construction, arithmetic, `dot`, `rem`, `sqrt` and `mat2` multiply.

use crate::constructs::Components;
use crate::constructs::Constructor;
use crate::fixed::Fix;
use crate::functions::dot;
use crate::functions::rem;
use crate::functions::spec_dot;
use crate::functions::sqrt;
use crate::mat2::mat2;
use crate::vec2::vec2;
use vstd::prelude::*;

verus! {

/// The elementwise Euclidean remainder of two 2-component vectors.
pub open spec fn spec_rem2(a: vec2, b: vec2) -> vec2 {
    vec2 { x: a.x.spec_rem_euclid(b.x), y: a.y.spec_rem_euclid(b.y) }
}

/// The grid spacing `(sqrt(3), 1)`.
pub open spec fn spec_spacing() -> vec2 {
    vec2 { x: Fix::spec_from_int(3).spec_sqrt(), y: Fix::spec_from_int(1) }
}

/// The id of the hex cell containing `uv`: of the two candidate grid
/// points around `uv` (the wrapped offset, and the wrapped offset of
/// the half-spacing-shifted point), the one with smaller squared norm
/// is subtracted from `uv`.
pub open spec fn spec_hex_id(uv: vec2) -> vec2 {
    let r = spec_spacing();
    let h = r.spec_div_scalar(Fix::spec_from_int(2));
    let a = spec_rem2(uv, r).spec_sub(h);
    let b = spec_rem2(uv.spec_sub(h), r).spec_sub(h);
    let gv = if spec_dot(a.comps(), a.comps(), 2).bits < spec_dot(b.comps(), b.comps(), 2).bits {
        a
    } else {
        b
    };
    uv.spec_sub(gv)
}

/// The Euclidean-to-axial conversion matrix applied to `pos`.
pub open spec fn spec_from_euclidean(pos: vec2) -> vec2 {
    let third = Fix::spec_from_int(1).spec_div(Fix::spec_from_int(3));
    let nthird = Fix::spec_from_int(-1).spec_div(Fix::spec_from_int(3));
    let sqthird = third.spec_sqrt();
    let m = <mat2 as Constructor<(Fix, Fix, Fix, Fix)>>::new_spec((third, nthird, sqthird, sqthird));
    m.spec_multiply(pos)
}

/// The axial-to-Euclidean conversion matrix applied to `axial`.
pub open spec fn spec_to_euclidean(axial: vec2) -> vec2 {
    let three_half = Fix::spec_from_int(3).spec_div(Fix::spec_from_int(2));
    let nthree_half = Fix::spec_from_int(-3).spec_div(Fix::spec_from_int(2));
    let sq3_half = Fix::spec_from_int(3).spec_sqrt().spec_div(Fix::spec_from_int(2));
    let m = <mat2 as Constructor<(Fix, Fix, Fix, Fix)>>::new_spec(
        (three_half, sq3_half, nthree_half, sq3_half),
    );
    m.spec_multiply(axial)
}

/// The full pipeline: scale the input by ten, take the hex-cell id,
/// convert it out of Euclidean space, and scale down by four.
pub open spec fn spec_calc(uv: vec2) -> vec2 {
    let scaled = uv.spec_mul_scalar(Fix::spec_from_int(10));
    spec_from_euclidean(spec_hex_id(scaled)).spec_div_scalar(Fix::spec_from_int(4))
}

/// The scalar square root of three, through the generic combinator.
fn sqrt3() -> (r: Fix)
    ensures
        r == Fix::spec_from_int(3).spec_sqrt(),
{
    let three = Fix::from_int(3);
    let r = sqrt(three);
    proof {
        assert(r.comps()[0] == three.comps()[0].spec_sqrt());
    }
    r
}

/// Computes the id of the hex cell containing `uv`.
pub fn hex_id(uv: vec2) -> (res: vec2)
    ensures
        res == spec_hex_id(uv),
{
    let r = vec2((sqrt3(), Fix::from_int(1)));
    let h = r.div_scalar(Fix::from_int(2));

    let ra = rem(uv, r);
    proof {
        assert(ra.comps() =~= spec_rem2(uv, r).comps());
        <vec2 as Components<2>>::lemma_comps_determine(ra, spec_rem2(uv, r));
    }
    let a = ra.sub(h);
    let rb = rem(uv.sub(h), r);
    proof {
        assert(rb.comps() =~= spec_rem2(uv.spec_sub(h), r).comps());
        <vec2 as Components<2>>::lemma_comps_determine(rb, spec_rem2(uv.spec_sub(h), r));
    }
    let b = rb.sub(h);

    let da = dot(a, a);
    let db = dot(b, b);
    let gv = if da.bits < db.bits {
        a
    } else {
        b
    };

    uv.sub(gv)
}

/// Converts a Euclidean position to axial hex coordinates.
pub fn from_euclidean(pos: vec2) -> (r: vec2)
    ensures
        r == spec_from_euclidean(pos),
{
    let third = Fix::from_int(1).div(Fix::from_int(3));
    let nthird = Fix::from_int(-1).div(Fix::from_int(3));
    let sqthird = {
        let t = sqrt(third);
        proof {
            assert(t.comps()[0] == third.comps()[0].spec_sqrt());
        }
        t
    };
    mat2((third, nthird, sqthird, sqthird)).multiply(pos)
}

/// Converts axial hex coordinates to a Euclidean position.
pub fn to_euclidean(axial: vec2) -> (r: vec2)
    ensures
        r == spec_to_euclidean(axial),
{
    let two = Fix::from_int(2);
    let three_half = Fix::from_int(3).div(two);
    let nthree_half = Fix::from_int(-3).div(two);
    let sq3_half = sqrt3().div(two);
    mat2((three_half, sq3_half, nthree_half, sq3_half)).multiply(axial)
}

/// Runs the full pipeline on `uv`.
pub fn calc(uv: vec2) -> (r: vec2)
    ensures
        r == spec_calc(uv),
{
    let mut uv = uv;
    let scale = Fix::from_int(10);
    uv.mul_assign_scalar(scale);
    from_euclidean(hex_id(uv)).div_scalar(Fix::from_int(4))
}

} // verus!
