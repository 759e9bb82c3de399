//! The 2x2 matrix type: a linear map stored as two column vectors.

use crate::constructs::Components;
use crate::constructs::Constructor;
use crate::fixed::Fix;
use crate::vec2::vec2;
use vstd::prelude::*;

verus! {

/// A 2x2 matrix stored as two 2-component columns.  The logical entries
/// `m11, m21, m12, m22` (`m_ij` is row `i`, column `j`) are a view over
/// those columns: `mx1 = [m11, m21]` and `mx2 = [m12, m22]`.
#[allow(non_camel_case_types)]
#[derive(Clone, Copy, Debug, PartialEq, Eq, Structural)]
pub struct mat2 {
    pub mx1: vec2,
    pub mx2: vec2,
}

/// Builds a `mat2` from any supported parameter shape.
pub fn mat2<T>(para: T) -> (r: mat2) where mat2: Constructor<T>
    ensures
        r == <mat2 as Constructor<T>>::new_spec(para),
{
    <mat2 as Constructor<T>>::new(para)
}

/// Construction from the four entries `(m11, m21, m12, m22)`: the first
/// two scalars fill the first column, the last two the second.
impl Constructor<(Fix, Fix, Fix, Fix)> for mat2 {
    open spec fn new_spec(para: (Fix, Fix, Fix, Fix)) -> mat2 {
        mat2 {
            mx1: vec2 { x: para.0, y: para.1 },
            mx2: vec2 { x: para.2, y: para.3 },
        }
    }

    fn new(para: (Fix, Fix, Fix, Fix)) -> mat2 {
        mat2 {
            mx1: vec2 { x: para.0, y: para.1 },
            mx2: vec2 { x: para.2, y: para.3 },
        }
    }
}

/// Construction from the two columns, in order.
impl Constructor<(vec2, vec2)> for mat2 {
    open spec fn new_spec(para: (vec2, vec2)) -> mat2 {
        mat2 { mx1: para.0, mx2: para.1 }
    }

    fn new(para: (vec2, vec2)) -> mat2 {
        mat2 { mx1: para.0, mx2: para.1 }
    }
}

/// Construction from an identical matrix.
impl Constructor<(mat2,)> for mat2 {
    open spec fn new_spec(para: (mat2,)) -> mat2 {
        para.0
    }

    fn new(para: (mat2,)) -> mat2 {
        para.0
    }
}

/// Construction from a raw array of the two columns, in order.
impl Constructor<([vec2; 2],)> for mat2 {
    open spec fn new_spec(para: ([vec2; 2],)) -> mat2 {
        mat2 { mx1: para.0[0], mx2: para.0[1] }
    }

    fn new(para: ([vec2; 2],)) -> mat2 {
        mat2 { mx1: para.0[0], mx2: para.0[1] }
    }
}

/// A matrix viewed as its two columns.
impl Components<2> for mat2 {
    type Comp = vec2;

    open spec fn comps(self) -> Seq<vec2> {
        seq![self.mx1, self.mx2]
    }

    proof fn lemma_comps_determine(a: mat2, b: mat2) {
        assert(a.comps()[0] == b.comps()[0]);
        assert(a.comps()[1] == b.comps()[1]);
    }

    fn from_components(comps: Vec<vec2>) -> (r: mat2) {
        let r = mat2 { mx1: comps[0], mx2: comps[1] };
        proof {
            assert(r.comps() =~= comps@);
        }
        r
    }

    fn components(self) -> (r: Vec<vec2>) {
        let mut v = Vec::new();
        v.push(self.mx1);
        v.push(self.mx2);
        proof {
            assert(v@ =~= self.comps());
        }
        v
    }
}

impl mat2 {
    /// The entry in row 1, column 1.
    pub fn m11(self) -> (r: Fix)
        ensures
            r == self.mx1.x,
    {
        self.mx1.x
    }

    /// The entry in row 2, column 1.
    pub fn m21(self) -> (r: Fix)
        ensures
            r == self.mx1.y,
    {
        self.mx1.y
    }

    /// The entry in row 1, column 2.
    pub fn m12(self) -> (r: Fix)
        ensures
            r == self.mx2.x,
    {
        self.mx2.x
    }

    /// The entry in row 2, column 2.
    pub fn m22(self) -> (r: Fix)
        ensures
            r == self.mx2.y,
    {
        self.mx2.y
    }

    /// The matrix-vector product: row by column, treating the vector as
    /// a column `(x, y)`.
    pub open spec fn spec_multiply(self, vec: vec2) -> vec2 {
        vec2 {
            x: vec.x.spec_mul(self.mx1.x).spec_add(vec.y.spec_mul(self.mx2.x)),
            y: vec.x.spec_mul(self.mx1.y).spec_add(vec.y.spec_mul(self.mx2.y)),
        }
    }

    /// Applies the matrix to a vector.
    pub fn multiply(self, vec: vec2) -> (r: vec2)
        ensures
            r == self.spec_multiply(vec),
    {
        vec2 {
            x: vec.x.mul(self.mx1.x).add(vec.y.mul(self.mx2.x)),
            y: vec.x.mul(self.mx1.y).add(vec.y.mul(self.mx2.y)),
        }
    }
}

/// The matrix built from `(1, 0, 0, 1)` is the identity of the
/// matrix-vector product.
pub proof fn lemma_multiply_identity(m: mat2, v: vec2)
    requires
        m == <mat2 as Constructor<(Fix, Fix, Fix, Fix)>>::new_spec(
            (
                Fix::spec_from_int(1),
                (Fix { bits: 0 }),
                (Fix { bits: 0 }),
                Fix::spec_from_int(1),
            ),
        ),
    ensures
        m.spec_multiply(v) == v,
{
    crate::fixed::lemma_fix_mul_one(v.x);
    crate::fixed::lemma_fix_mul_one(v.y);
    crate::fixed::lemma_fix_mul_zero(v.x);
    crate::fixed::lemma_fix_mul_zero(v.y);
    crate::fixed::lemma_fix_add_zero(v.x);
    crate::fixed::lemma_fix_add_zero(v.y);
}

} // verus!
