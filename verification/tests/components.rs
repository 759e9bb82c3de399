//! Round trips between values and their component views.

use vecmat::constructs::Components;
use vecmat::fixed::Fix;
use vecmat::mat2::mat2;
use vecmat::vec2::vec2;
use vecmat::vec3::vec3;
use vecmat::vec4::vec4;

fn fx(n: i64) -> Fix {
    Fix::from_int(n)
}

#[test]
fn scalar_round_trip() {
    let v = fx(7);
    assert_eq!(Fix::from_components(v.components()), v);
    assert_eq!(v.components(), vec![fx(7)]);
}

#[test]
fn vec2_round_trip() {
    let v = vec2((fx(1), fx(-2)));
    assert_eq!(vec2::from_components(v.components()), v);
    assert_eq!(v.components(), vec![fx(1), fx(-2)]);
}

#[test]
fn vec3_round_trip() {
    let v = vec3((fx(1), fx(2), fx(3)));
    assert_eq!(vec3::from_components(v.components()), v);
    assert_eq!(v.components(), vec![fx(1), fx(2), fx(3)]);
}

#[test]
fn vec4_round_trip() {
    let v = vec4((fx(-4), fx(3), fx(-2), fx(1)));
    assert_eq!(vec4::from_components(v.components()), v);
    assert_eq!(v.components(), vec![fx(-4), fx(3), fx(-2), fx(1)]);
}

#[test]
fn mat2_round_trip() {
    let m = mat2((fx(1), fx(2), fx(3), fx(4)));
    assert_eq!(mat2::from_components(m.components()), m);
    assert_eq!(
        m.components(),
        vec![vec2((fx(1), fx(2))), vec2((fx(3), fx(4)))]
    );
}

#[test]
fn from_components_builds_in_order() {
    let v = vec3::from_components(vec![fx(9), fx(8), fx(7)]);
    assert_eq!(v.x, fx(9));
    assert_eq!(v.y, fx(8));
    assert_eq!(v.z, fx(7));
}
