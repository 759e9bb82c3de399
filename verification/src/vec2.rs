//! The two-component vector type.

use crate::constructs::Components;
use crate::constructs::Constructor;
use crate::fixed::Fix;
use vstd::prelude::*;

verus! {

/// A two-component vector of fixed-point scalars.
#[allow(non_camel_case_types)]
#[derive(Clone, Copy, Debug, PartialEq, Eq, Structural)]
pub struct vec2 {
    pub x: Fix,
    pub y: Fix,
}

/// Builds a `vec2` from any supported parameter shape.
pub fn vec2<T>(para: T) -> (r: vec2) where vec2: Constructor<T>
    ensures
        r == <vec2 as Constructor<T>>::new_spec(para),
{
    <vec2 as Constructor<T>>::new(para)
}

/// Construction from the two fields, in order.
impl Constructor<(Fix, Fix)> for vec2 {
    open spec fn new_spec(para: (Fix, Fix)) -> vec2 {
        vec2 { x: para.0, y: para.1 }
    }

    fn new(para: (Fix, Fix)) -> vec2 {
        vec2 { x: para.0, y: para.1 }
    }
}

/// Construction by broadcasting one scalar to every field.
impl Constructor<(Fix,)> for vec2 {
    open spec fn new_spec(para: (Fix,)) -> vec2 {
        vec2 { x: para.0, y: para.0 }
    }

    fn new(para: (Fix,)) -> vec2 {
        vec2 { x: para.0, y: para.0 }
    }
}

/// Construction from an identical vector.
impl Constructor<(vec2,)> for vec2 {
    open spec fn new_spec(para: (vec2,)) -> vec2 {
        para.0
    }

    fn new(para: (vec2,)) -> vec2 {
        para.0
    }
}

/// Construction from a raw array of the two fields, in order.
impl Constructor<([Fix; 2],)> for vec2 {
    open spec fn new_spec(para: ([Fix; 2],)) -> vec2 {
        vec2 { x: para.0[0], y: para.0[1] }
    }

    fn new(para: ([Fix; 2],)) -> vec2 {
        vec2 { x: para.0[0], y: para.0[1] }
    }
}

impl Components<2> for vec2 {
    type Comp = Fix;

    open spec fn comps(self) -> Seq<Fix> {
        seq![self.x, self.y]
    }

    proof fn lemma_comps_determine(a: vec2, b: vec2) {
        assert(a.comps()[0] == b.comps()[0]);
        assert(a.comps()[1] == b.comps()[1]);
    }

    fn from_components(comps: Vec<Fix>) -> (r: vec2) {
        let r = vec2 { x: comps[0], y: comps[1] };
        proof {
            assert(r.comps() =~= comps@);
        }
        r
    }

    fn components(self) -> (r: Vec<Fix>) {
        let mut v = Vec::new();
        v.push(self.x);
        v.push(self.y);
        proof {
            assert(v@ =~= self.comps());
        }
        v
    }
}

impl vec2 {
    /// The fields as a tuple, for positional destructuring.
    pub fn as_tuple(self) -> (r: (Fix, Fix))
        ensures
            r.0 == self.x,
            r.1 == self.y,
    {
        (self.x, self.y)
    }

    /// The elementwise sum.
    pub open spec fn spec_add(self, o: vec2) -> vec2 {
        vec2 { x: self.x.spec_add(o.x), y: self.y.spec_add(o.y) }
    }

    /// The elementwise difference.
    pub open spec fn spec_sub(self, o: vec2) -> vec2 {
        vec2 { x: self.x.spec_sub(o.x), y: self.y.spec_sub(o.y) }
    }

    /// The elementwise product.
    pub open spec fn spec_mul(self, o: vec2) -> vec2 {
        vec2 { x: self.x.spec_mul(o.x), y: self.y.spec_mul(o.y) }
    }

    /// The elementwise quotient.
    pub open spec fn spec_div(self, o: vec2) -> vec2 {
        vec2 { x: self.x.spec_div(o.x), y: self.y.spec_div(o.y) }
    }

    /// The product with one scalar, broadcast to every component.
    pub open spec fn spec_mul_scalar(self, s: Fix) -> vec2 {
        vec2 { x: self.x.spec_mul(s), y: self.y.spec_mul(s) }
    }

    /// The quotient by one scalar, broadcast to every component.
    pub open spec fn spec_div_scalar(self, s: Fix) -> vec2 {
        vec2 { x: self.x.spec_div(s), y: self.y.spec_div(s) }
    }

    /// Elementwise addition.
    pub fn add(self, rhs: vec2) -> (r: vec2)
        ensures
            r == self.spec_add(rhs),
    {
        vec2 { x: self.x.add(rhs.x), y: self.y.add(rhs.y) }
    }

    /// Elementwise subtraction.
    pub fn sub(self, rhs: vec2) -> (r: vec2)
        ensures
            r == self.spec_sub(rhs),
    {
        vec2 { x: self.x.sub(rhs.x), y: self.y.sub(rhs.y) }
    }

    /// Elementwise multiplication.
    pub fn mul(self, rhs: vec2) -> (r: vec2)
        ensures
            r == self.spec_mul(rhs),
    {
        vec2 { x: self.x.mul(rhs.x), y: self.y.mul(rhs.y) }
    }

    /// Elementwise division.
    pub fn div(self, rhs: vec2) -> (r: vec2)
        ensures
            r == self.spec_div(rhs),
    {
        vec2 { x: self.x.div(rhs.x), y: self.y.div(rhs.y) }
    }

    /// Multiplication by one scalar.
    pub fn mul_scalar(self, rhs: Fix) -> (r: vec2)
        ensures
            r == self.spec_mul_scalar(rhs),
    {
        vec2 { x: self.x.mul(rhs), y: self.y.mul(rhs) }
    }

    /// Division by one scalar.
    pub fn div_scalar(self, rhs: Fix) -> (r: vec2)
        ensures
            r == self.spec_div_scalar(rhs),
    {
        vec2 { x: self.x.div(rhs), y: self.y.div(rhs) }
    }

    /// In-place elementwise addition.
    pub fn add_assign(&mut self, rhs: vec2)
        ensures
            *final(self) == old(self).spec_add(rhs),
    {
        *self = self.add(rhs);
    }

    /// In-place elementwise subtraction.
    pub fn sub_assign(&mut self, rhs: vec2)
        ensures
            *final(self) == old(self).spec_sub(rhs),
    {
        *self = self.sub(rhs);
    }

    /// In-place elementwise multiplication.
    pub fn mul_assign(&mut self, rhs: vec2)
        ensures
            *final(self) == old(self).spec_mul(rhs),
    {
        *self = self.mul(rhs);
    }

    /// In-place elementwise division.
    pub fn div_assign(&mut self, rhs: vec2)
        ensures
            *final(self) == old(self).spec_div(rhs),
    {
        *self = self.div(rhs);
    }

    /// In-place multiplication by one scalar.
    pub fn mul_assign_scalar(&mut self, rhs: Fix)
        ensures
            *final(self) == old(self).spec_mul_scalar(rhs),
    {
        *self = self.mul_scalar(rhs);
    }

    /// In-place division by one scalar.
    pub fn div_assign_scalar(&mut self, rhs: Fix)
        ensures
            *final(self) == old(self).spec_div_scalar(rhs),
    {
        *self = self.div_scalar(rhs);
    }
}

/// Elementwise vector addition is commutative.
pub proof fn lemma_vec2_add_comm(a: vec2, b: vec2)
    ensures
        a.spec_add(b) == b.spec_add(a),
{
    crate::fixed::lemma_fix_add_comm(a.x, b.x);
    crate::fixed::lemma_fix_add_comm(a.y, b.y);
}

} // verus!
