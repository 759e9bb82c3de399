//! Swizzle accessors: identity selections, reordering, repetition, and
//! arity changes.

use vecmat::fixed::Fix;
use vecmat::vec2::vec2;
use vecmat::vec3::vec3;
use vecmat::vec4::vec4;

fn fx(n: i64) -> Fix {
    Fix::from_int(n)
}

#[test]
fn identity_swizzles() {
    let v2 = vec2((fx(1), fx(2)));
    assert_eq!(v2.xy(), v2);
    let v3 = vec3((fx(1), fx(2), fx(3)));
    assert_eq!(v3.xyz(), v3);
    let v4 = vec4((fx(1), fx(2), fx(3), fx(4)));
    assert_eq!(v4.xyzw(), v4);
}

#[test]
fn full_reversal() {
    let v = vec4((fx(1), fx(2), fx(3), fx(4)));
    assert_eq!(v.wzyx(), vec4((fx(4), fx(3), fx(2), fx(1))));
}

#[test]
fn promotion_then_projection() {
    let lo = vec2((fx(1), fx(2)));
    assert_eq!(vec3((lo, fx(3))).xy(), lo);
}

#[test]
fn repetition() {
    let v2 = vec2((fx(1), fx(2)));
    assert_eq!(v2.yy(), vec2((fx(2), fx(2))));
    assert_eq!(v2.yxy(), vec3((fx(2), fx(1), fx(2))));
    let v3 = vec3((fx(1), fx(2), fx(3)));
    assert_eq!(v3.zzx(), vec3((fx(3), fx(3), fx(1))));
    assert_eq!(v3.zyxx(), vec4((fx(3), fx(2), fx(1), fx(1))));
    let v4 = vec4((fx(1), fx(2), fx(3), fx(4)));
    assert_eq!(v4.wwyx(), vec4((fx(4), fx(4), fx(2), fx(1))));
}

#[test]
fn arity_changes() {
    let v4 = vec4((fx(1), fx(2), fx(3), fx(4)));
    assert_eq!(v4.zw(), vec2((fx(3), fx(4))));
    assert_eq!(v4.wyz(), vec3((fx(4), fx(2), fx(3))));
    let v2 = vec2((fx(5), fx(6)));
    assert_eq!(v2.xxyy(), vec4((fx(5), fx(5), fx(6), fx(6))));
}
