//! The dimension-generic numeric functions `dot`, `rem` and `sqrt`.

use vecmat::fixed::Fix;
use vecmat::functions::dot;
use vecmat::functions::rem;
use vecmat::functions::sqrt;
use vecmat::vec2::vec2;
use vecmat::vec3::vec3;
use vecmat::vec4::vec4;

fn fx(n: i64) -> Fix {
    Fix::from_int(n)
}

fn half(n: i64) -> Fix {
    Fix::from_int(n).div(Fix::from_int(2))
}

#[test]
fn dot_exact_values() {
    assert_eq!(dot(fx(3), fx(4)), fx(12));
    assert_eq!(dot(vec2((fx(1), fx(2))), vec2((fx(3), fx(4)))), fx(11));
    assert_eq!(
        dot(vec3((fx(1), fx(2), fx(3))), vec3((fx(4), fx(5), fx(6)))),
        fx(32)
    );
    assert_eq!(
        dot(
            vec4((fx(1), fx(2), fx(3), fx(4))),
            vec4((fx(5), fx(6), fx(7), fx(8)))
        ),
        fx(70)
    );
}

#[test]
fn dot_commutes() {
    let a = vec2((half(-3), fx(7)));
    let b = vec2((fx(5), half(9)));
    assert_eq!(dot(a, b), dot(b, a));
    let c = vec4((fx(1), fx(-2), half(5), fx(4)));
    let d = vec4((half(-7), fx(6), fx(3), fx(0)));
    assert_eq!(dot(c, d), dot(d, c));
}

#[test]
fn rem_is_non_negative_for_positive_divisors() {
    let r = rem(vec2((half(-1), half(-1))), vec2((fx(1), fx(1))));
    assert_eq!(r, vec2((half(1), half(1))));
}

#[test]
fn rem_exact_values() {
    assert_eq!(
        rem(vec2((fx(7), fx(5))), vec2((fx(3), fx(3)))),
        vec2((fx(1), fx(2)))
    );
    assert_eq!(rem(fx(5), fx(-3)), fx(-1));
    assert_eq!(
        rem(vec3((fx(-1), fx(0), fx(10))), vec3((fx(4), fx(4), fx(4)))),
        vec3((fx(3), fx(0), fx(2)))
    );
}

#[test]
fn rem_sign_follows_divisor() {
    let r = rem(vec2((half(-1), half(-1))), vec2((fx(-1), fx(-1))));
    assert_eq!(r, vec2((half(-1), half(-1))));
    assert_eq!(rem(fx(-1), fx(-2)), fx(-1));
    assert_eq!(rem(fx(7), fx(-3)), fx(-2));
}

#[test]
fn dot_with_self_is_non_negative() {
    let big = Fix { bits: 3 << 50 };
    let v = vec2((big, fx(0)));
    let d = dot(v, v);
    assert!(d.bits >= 0);
    assert_eq!(d.bits, i64::MAX);
    let w = vec3((fx(-5), half(7), fx(0)));
    assert!(dot(w, w).bits >= 0);
}

#[test]
fn rem_by_zero_yields_zero() {
    assert_eq!(rem(fx(5), fx(0)), fx(0));
}

#[test]
fn sqrt_exact_values() {
    assert_eq!(sqrt(vec2((fx(4), fx(9)))), vec2((fx(2), fx(3))));
    assert_eq!(sqrt(fx(0)), fx(0));
    assert_eq!(sqrt(fx(1)), fx(1));
    assert_eq!(sqrt(fx(2)).bits, 1554944255987);
    assert_eq!(sqrt(fx(3)).bits, 1904410002820);
}

#[test]
fn sqrt_of_negative_yields_zero() {
    assert_eq!(sqrt(fx(-4)), fx(0));
    assert_eq!(sqrt(vec2((fx(-1), fx(16)))), vec2((fx(0), fx(4))));
}

#[test]
fn sqrt_rounds_down() {
    let s = sqrt(fx(2));
    assert!(s.mul(s).bits <= fx(2).bits);
    let up = Fix { bits: s.bits + 1 };
    assert!(up.mul(up).bits >= fx(2).bits);
}
