//! The 3-component vector type.

use crate::constructs::Components;
use crate::constructs::Constructor;
use crate::fixed::Fix;
use crate::vec2::vec2;
use vstd::prelude::*;

verus! {

/// A 3-component vector of fixed-point scalars.
#[allow(non_camel_case_types)]
#[derive(Clone, Copy, Debug, PartialEq, Eq, Structural)]
pub struct vec3 {
    pub x: Fix,
    pub y: Fix,
    pub z: Fix,
}

/// Builds a `vec3` from any supported parameter shape.
pub fn vec3<T>(para: T) -> (r: vec3) where vec3: Constructor<T>
    ensures
        r == <vec3 as Constructor<T>>::new_spec(para),
{
    <vec3 as Constructor<T>>::new(para)
}

/// Construction from the three fields, in order.
impl Constructor<(Fix, Fix, Fix)> for vec3 {
    open spec fn new_spec(para: (Fix, Fix, Fix)) -> vec3 {
        vec3 { x: para.0, y: para.1, z: para.2 }
    }

    fn new(para: (Fix, Fix, Fix)) -> vec3 {
        vec3 { x: para.0, y: para.1, z: para.2 }
    }
}

/// Construction by broadcasting one scalar to every field.
impl Constructor<(Fix,)> for vec3 {
    open spec fn new_spec(para: (Fix,)) -> vec3 {
        vec3 { x: para.0, y: para.0, z: para.0 }
    }

    fn new(para: (Fix,)) -> vec3 {
        vec3 { x: para.0, y: para.0, z: para.0 }
    }
}

/// Construction from an identical vector.
impl Constructor<(vec3,)> for vec3 {
    open spec fn new_spec(para: (vec3,)) -> vec3 {
        para.0
    }

    fn new(para: (vec3,)) -> vec3 {
        para.0
    }
}

/// Construction from a raw array of the fields, in order.
impl Constructor<([Fix; 3],)> for vec3 {
    open spec fn new_spec(para: ([Fix; 3],)) -> vec3 {
        vec3 { x: para.0[0], y: para.0[1], z: para.0[2] }
    }

    fn new(para: ([Fix; 3],)) -> vec3 {
        vec3 { x: para.0[0], y: para.0[1], z: para.0[2] }
    }
}

/// Promotion from a vec2 plus one trailing scalar.
impl Constructor<(vec2, Fix)> for vec3 {
    open spec fn new_spec(para: (vec2, Fix)) -> vec3 {
        vec3 { x: para.0.x, y: para.0.y, z: para.1 }
    }

    fn new(para: (vec2, Fix)) -> vec3 {
        vec3 { x: para.0.x, y: para.0.y, z: para.1 }
    }
}

impl Components<3> for vec3 {
    type Comp = Fix;

    open spec fn comps(self) -> Seq<Fix> {
        seq![self.x, self.y, self.z]
    }

    proof fn lemma_comps_determine(a: vec3, b: vec3) {
        assert(a.comps()[0] == b.comps()[0]);
        assert(a.comps()[1] == b.comps()[1]);
        assert(a.comps()[2] == b.comps()[2]);
    }

    fn from_components(comps: Vec<Fix>) -> (r: vec3) {
        let r = vec3 { x: comps[0], y: comps[1], z: comps[2] };
        proof {
            assert(r.comps() =~= comps@);
        }
        r
    }

    fn components(self) -> (r: Vec<Fix>) {
        let mut v = Vec::new();
        v.push(self.x);
        v.push(self.y);
        v.push(self.z);
        proof {
            assert(v@ =~= self.comps());
        }
        v
    }
}

impl vec3 {
    /// The fields as a tuple, for positional destructuring.
    pub fn as_tuple(self) -> (r: (Fix, Fix, Fix))
        ensures
            r.0 == self.x,
            r.1 == self.y,
            r.2 == self.z,
    {
        (self.x, self.y, self.z)
    }

    /// The elementwise sum.
    pub open spec fn spec_add(self, o: vec3) -> vec3 {
        vec3 { x: self.x.spec_add(o.x), y: self.y.spec_add(o.y), z: self.z.spec_add(o.z) }
    }

    /// The elementwise difference.
    pub open spec fn spec_sub(self, o: vec3) -> vec3 {
        vec3 { x: self.x.spec_sub(o.x), y: self.y.spec_sub(o.y), z: self.z.spec_sub(o.z) }
    }

    /// The elementwise product.
    pub open spec fn spec_mul(self, o: vec3) -> vec3 {
        vec3 { x: self.x.spec_mul(o.x), y: self.y.spec_mul(o.y), z: self.z.spec_mul(o.z) }
    }

    /// The elementwise quotient.
    pub open spec fn spec_div(self, o: vec3) -> vec3 {
        vec3 { x: self.x.spec_div(o.x), y: self.y.spec_div(o.y), z: self.z.spec_div(o.z) }
    }

    /// The product with one scalar, broadcast to every component.
    pub open spec fn spec_mul_scalar(self, s: Fix) -> vec3 {
        vec3 { x: self.x.spec_mul(s), y: self.y.spec_mul(s), z: self.z.spec_mul(s) }
    }

    /// The quotient by one scalar, broadcast to every component.
    pub open spec fn spec_div_scalar(self, s: Fix) -> vec3 {
        vec3 { x: self.x.spec_div(s), y: self.y.spec_div(s), z: self.z.spec_div(s) }
    }

    /// Elementwise addition.
    pub fn add(self, rhs: vec3) -> (r: vec3)
        ensures
            r == self.spec_add(rhs),
    {
        vec3 { x: self.x.add(rhs.x), y: self.y.add(rhs.y), z: self.z.add(rhs.z) }
    }

    /// Elementwise subtraction.
    pub fn sub(self, rhs: vec3) -> (r: vec3)
        ensures
            r == self.spec_sub(rhs),
    {
        vec3 { x: self.x.sub(rhs.x), y: self.y.sub(rhs.y), z: self.z.sub(rhs.z) }
    }

    /// Elementwise multiplication.
    pub fn mul(self, rhs: vec3) -> (r: vec3)
        ensures
            r == self.spec_mul(rhs),
    {
        vec3 { x: self.x.mul(rhs.x), y: self.y.mul(rhs.y), z: self.z.mul(rhs.z) }
    }

    /// Elementwise division.
    pub fn div(self, rhs: vec3) -> (r: vec3)
        ensures
            r == self.spec_div(rhs),
    {
        vec3 { x: self.x.div(rhs.x), y: self.y.div(rhs.y), z: self.z.div(rhs.z) }
    }

    /// Multiplication by one scalar.
    pub fn mul_scalar(self, rhs: Fix) -> (r: vec3)
        ensures
            r == self.spec_mul_scalar(rhs),
    {
        vec3 { x: self.x.mul(rhs), y: self.y.mul(rhs), z: self.z.mul(rhs) }
    }

    /// Division by one scalar.
    pub fn div_scalar(self, rhs: Fix) -> (r: vec3)
        ensures
            r == self.spec_div_scalar(rhs),
    {
        vec3 { x: self.x.div(rhs), y: self.y.div(rhs), z: self.z.div(rhs) }
    }

    /// In-place elementwise addition.
    pub fn add_assign(&mut self, rhs: vec3)
        ensures
            *final(self) == old(self).spec_add(rhs),
    {
        *self = self.add(rhs);
    }

    /// In-place elementwise subtraction.
    pub fn sub_assign(&mut self, rhs: vec3)
        ensures
            *final(self) == old(self).spec_sub(rhs),
    {
        *self = self.sub(rhs);
    }

    /// In-place elementwise multiplication.
    pub fn mul_assign(&mut self, rhs: vec3)
        ensures
            *final(self) == old(self).spec_mul(rhs),
    {
        *self = self.mul(rhs);
    }

    /// In-place elementwise division.
    pub fn div_assign(&mut self, rhs: vec3)
        ensures
            *final(self) == old(self).spec_div(rhs),
    {
        *self = self.div(rhs);
    }

    /// In-place multiplication by one scalar.
    pub fn mul_assign_scalar(&mut self, rhs: Fix)
        ensures
            *final(self) == old(self).spec_mul_scalar(rhs),
    {
        *self = self.mul_scalar(rhs);
    }

    /// In-place division by one scalar.
    pub fn div_assign_scalar(&mut self, rhs: Fix)
        ensures
            *final(self) == old(self).spec_div_scalar(rhs),
    {
        *self = self.div_scalar(rhs);
    }
}

/// Elementwise vector addition is commutative.
pub proof fn lemma_vec3_add_comm(a: vec3, b: vec3)
    ensures
        a.spec_add(b) == b.spec_add(a),
{
    crate::fixed::lemma_fix_add_comm(a.x, b.x);
    crate::fixed::lemma_fix_add_comm(a.y, b.y);
    crate::fixed::lemma_fix_add_comm(a.z, b.z);
}

} // verus!
