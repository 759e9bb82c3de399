//! Construction shapes and elementwise arithmetic of the vector types.

use vecmat::fixed::Fix;
use vecmat::fixed::FRAC_ONE;
use vecmat::vec2::vec2;
use vecmat::vec3::vec3;
use vecmat::vec4::vec4;

fn fx(n: i64) -> Fix {
    Fix::from_int(n)
}

#[test]
fn from_int_scales_by_the_denominator() {
    assert_eq!(fx(1).bits, FRAC_ONE);
    assert_eq!(fx(-3).bits, -3 * FRAC_ONE);
    assert_eq!(fx(0).bits, 0);
}

#[test]
fn construct_broadcast() {
    assert_eq!(vec2((fx(5),)), vec2((fx(5), fx(5))));
    assert_eq!(vec3((fx(5),)), vec3((fx(5), fx(5), fx(5))));
    assert_eq!(vec4((fx(5),)), vec4((fx(5), fx(5), fx(5), fx(5))));
}

#[test]
fn construct_identity() {
    let v = vec3((fx(1), fx(2), fx(3)));
    assert_eq!(vec3((v,)), v);
}

#[test]
fn construct_from_array() {
    assert_eq!(vec2(([fx(1), fx(2)],)), vec2((fx(1), fx(2))));
    assert_eq!(
        vec4(([fx(1), fx(2), fx(3), fx(4)],)),
        vec4((fx(1), fx(2), fx(3), fx(4)))
    );
}

#[test]
fn construct_promotions() {
    let lo = vec2((fx(1), fx(2)));
    assert_eq!(vec3((lo, fx(3))), vec3((fx(1), fx(2), fx(3))));
    assert_eq!(vec4((lo, fx(3), fx(4))), vec4((fx(1), fx(2), fx(3), fx(4))));
    let mid = vec3((fx(1), fx(2), fx(3)));
    assert_eq!(vec4((mid, fx(4))), vec4((fx(1), fx(2), fx(3), fx(4))));
}

#[test]
fn field_access_reads_and_writes() {
    let mut v = vec2((fx(1), fx(2)));
    v.x = fx(9);
    assert_eq!(v, vec2((fx(9), fx(2))));
    assert_eq!(v.y, fx(2));
    let (a, b) = v.as_tuple();
    assert_eq!((a, b), (fx(9), fx(2)));
}

#[test]
fn elementwise_arithmetic() {
    let a = vec2((fx(7), fx(-4)));
    let b = vec2((fx(2), fx(3)));
    assert_eq!(a.add(b), vec2((fx(9), fx(-1))));
    assert_eq!(a.sub(b), vec2((fx(5), fx(-7))));
    assert_eq!(a.mul(b), vec2((fx(14), fx(-12))));
    assert_eq!(a.div(b), vec2((Fix { bits: 7 * FRAC_ONE / 2 }, Fix {
        bits: (-4 * FRAC_ONE).div_euclid(3),
    })));
}

#[test]
fn scalar_arithmetic() {
    let a = vec3((fx(3), fx(-6), fx(9)));
    assert_eq!(a.mul_scalar(fx(2)), vec3((fx(6), fx(-12), fx(18))));
    assert_eq!(a.div_scalar(fx(3)), vec3((fx(1), fx(-2), fx(3))));
}

#[test]
fn in_place_arithmetic() {
    let mut a = vec4((fx(1), fx(2), fx(3), fx(4)));
    let b = vec4((fx(10), fx(20), fx(30), fx(40)));
    a.add_assign(b);
    assert_eq!(a, vec4((fx(11), fx(22), fx(33), fx(44))));
    a.sub_assign(b);
    assert_eq!(a, vec4((fx(1), fx(2), fx(3), fx(4))));
    a.mul_assign(b);
    assert_eq!(a, vec4((fx(10), fx(40), fx(90), fx(160))));
    a.div_assign(b);
    assert_eq!(a, vec4((fx(1), fx(2), fx(3), fx(4))));
    a.mul_assign_scalar(fx(5));
    assert_eq!(a, vec4((fx(5), fx(10), fx(15), fx(20))));
    a.div_assign_scalar(fx(5));
    assert_eq!(a, vec4((fx(1), fx(2), fx(3), fx(4))));
}

#[test]
fn addition_commutes() {
    let a = vec2((fx(3), fx(-8)));
    let b = vec2((fx(-5), fx(13)));
    assert_eq!(a.add(b), b.add(a));
    let c = vec3((fx(1), fx(2), fx(3)));
    let d = vec3((fx(9), fx(-9), fx(0)));
    assert_eq!(c.add(d), d.add(c));
    let e = vec4((fx(1), fx(-2), fx(3), fx(-4)));
    let f = vec4((fx(0), fx(7), fx(-7), fx(11)));
    assert_eq!(e.add(f), f.add(e));
}

#[test]
fn division_by_zero_yields_zero() {
    let a = vec2((fx(5), fx(-5)));
    assert_eq!(a.div(vec2((fx(0),))), vec2((fx(0), fx(0))));
    assert_eq!(a.div_scalar(fx(0)), vec2((fx(0), fx(0))));
}

#[test]
fn arithmetic_saturates_at_the_representation_limits() {
    let top = Fix { bits: i64::MAX };
    let bottom = Fix { bits: i64::MIN };
    let one = Fix { bits: 1 };
    assert_eq!(top.add(one), top);
    assert_eq!(bottom.sub(one), bottom);
    assert_eq!(top.mul(top), top);
    assert_eq!(top.mul(bottom), bottom);
}
