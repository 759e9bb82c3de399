//! The scalar type of the algebra: a signed fixed-point number.
//!
//! A `Fix` stores a signed 64-bit integer `bits` and denotes the rational
//! number `bits / 2^40`.  All operations are total: results outside the
//! 64-bit range saturate at the nearest representable bound, division and
//! remainder by zero yield zero, the remainder carries the sign of the
//! divisor, and the square root of a negative number yields zero.

use crate::constructs::Components;
use vstd::prelude::*;

verus! {

/// The denominator of the fixed-point representation, `2^40`.
pub const FRAC_ONE: i64 = 0x100_0000_0000;

/// Clamps an unbounded integer to the signed 64-bit range.
pub open spec fn sat_i64(v: int) -> int {
    if v > 0x7fff_ffff_ffff_ffff {
        0x7fff_ffff_ffff_ffff
    } else if v < -0x8000_0000_0000_0000 {
        -0x8000_0000_0000_0000
    } else {
        v
    }
}

/// A product of bounded factors is bounded by the product of the bounds.
pub proof fn lemma_mul_abs_bound(a: int, b: int, ab: int, bb: int)
    by (nonlinear_arith)
    requires
        -ab <= a <= ab,
        -bb <= b <= bb,
    ensures
        -(ab * bb) <= a * b <= ab * bb,
{
}

/// A Euclidean quotient lies within the bounds of its dividend widened by
/// the divisor's bound.
pub proof fn lemma_div_euclid_range(p: int, d: int, pb: int, db: int)
    by (nonlinear_arith)
    requires
        d != 0,
        -pb <= p <= pb,
        -db <= d <= db,
        0 <= pb,
        0 <= db,
    ensures
        -(pb + db) <= p / d <= pb + db,
{
}

/// A Euclidean remainder is non-negative and smaller than the divisor's
/// magnitude.
pub proof fn lemma_rem_euclid_range(p: int, d: int)
    by (nonlinear_arith)
    requires
        d != 0,
    ensures
        0 <= p % d,
        d > 0 ==> p % d < d,
        d < 0 ==> p % d < -d,
{
}

/// The integer square root: the largest `r` with `r * r <= n`.
pub open spec fn isqrt_spec(n: nat) -> nat
    decreases n,
{
    if n == 0 {
        0
    } else {
        let p = isqrt_spec((n - 1) as nat);
        if (p + 1) * (p + 1) <= n {
            p + 1
        } else {
            p
        }
    }
}

/// The integer square root brackets its argument.
pub proof fn lemma_isqrt_bounds(n: nat)
    ensures
        isqrt_spec(n) * isqrt_spec(n) <= n,
        n < (isqrt_spec(n) + 1) * (isqrt_spec(n) + 1),
    decreases n,
{
    if n > 0 {
        lemma_isqrt_bounds((n - 1) as nat);
        let p = isqrt_spec((n - 1) as nat);
        if (p + 1) * (p + 1) <= n {
            assert(n < (p + 2) * (p + 2)) by (nonlinear_arith)
                requires
                    n - 1 < (p + 1) * (p + 1),
            ;
        }
    } else {
        assert(n < (isqrt_spec(n) + 1) * (isqrt_spec(n) + 1)) by (nonlinear_arith)
            requires
                n == 0,
                isqrt_spec(n) == 0,
        ;
    }
}

/// Any value bracketing `n` the way the integer square root does is the
/// integer square root.
pub proof fn lemma_isqrt_unique(n: nat, r: nat)
    requires
        r * r <= n,
        n < (r + 1) * (r + 1),
    ensures
        r == isqrt_spec(n),
{
    lemma_isqrt_bounds(n);
    let s = isqrt_spec(n);
    assert(r == s) by (nonlinear_arith)
        requires
            r * r <= n,
            n < (r + 1) * (r + 1),
            s * s <= n,
            n < (s + 1) * (s + 1),
    ;
}

/// A fixed-point scalar denoting `bits / 2^40`.
#[derive(Clone, Copy, Debug, PartialEq, Eq, Structural)]
pub struct Fix {
    pub bits: i64,
}

impl Fix {
    /// The value of the integer `n`, clamped into range.
    pub open spec fn spec_from_int(n: int) -> Fix {
        Fix { bits: sat_i64(n * 0x100_0000_0000) as i64 }
    }

    /// The sum, clamped into range.
    pub open spec fn spec_add(self, o: Fix) -> Fix {
        Fix { bits: sat_i64(self.bits + o.bits) as i64 }
    }

    /// The difference, clamped into range.
    pub open spec fn spec_sub(self, o: Fix) -> Fix {
        Fix { bits: sat_i64(self.bits - o.bits) as i64 }
    }

    /// The product: the full integer product of the bit patterns, scaled
    /// back down by `2^40` (rounding toward negative infinity), clamped
    /// into range.
    pub open spec fn spec_mul(self, o: Fix) -> Fix {
        Fix { bits: sat_i64((self.bits * o.bits) / 0x100_0000_0000) as i64 }
    }

    /// The quotient: the dividend scaled up by `2^40`, divided by the
    /// divisor (Euclidean division), clamped into range.  Division by
    /// zero yields zero.
    pub open spec fn spec_div(self, o: Fix) -> Fix {
        if o.bits == 0 {
            Fix { bits: 0 }
        } else {
            Fix { bits: sat_i64((self.bits * 0x100_0000_0000) / (o.bits as int)) as i64 }
        }
    }

    /// The remainder: it carries the sign of the divisor and is smaller
    /// in magnitude than the divisor.  A zero divisor yields zero.
    pub open spec fn spec_rem_euclid(self, o: Fix) -> Fix {
        if o.bits == 0 {
            Fix { bits: 0 }
        } else {
            let r = (self.bits as int) % (o.bits as int);
            if o.bits < 0 && r != 0 {
                Fix { bits: (r + o.bits) as i64 }
            } else {
                Fix { bits: r as i64 }
            }
        }
    }

    /// The square root: the integer square root of the bit pattern scaled
    /// up by `2^40`, so that the result again denotes `root / 2^40`
    /// (rounded toward zero).  A negative argument yields zero.
    pub open spec fn spec_sqrt(self) -> Fix {
        if self.bits < 0 {
            Fix { bits: 0 }
        } else {
            Fix { bits: isqrt_spec((self.bits * 0x100_0000_0000) as nat) as i64 }
        }
    }
}

/// Clamps a 128-bit value to the signed 64-bit range.
fn sat_to_i64(v: i128) -> (r: i64)
    ensures
        r as int == sat_i64(v as int),
{
    if v > i64::MAX as i128 {
        i64::MAX
    } else if v < i64::MIN as i128 {
        i64::MIN
    } else {
        v as i64
    }
}

impl Fix {
    /// Builds the scalar denoting the integer `n`.
    pub fn from_int(n: i64) -> (r: Fix)
        ensures
            r == Fix::spec_from_int(n as int),
    {
        proof {
            lemma_mul_abs_bound(n as int, FRAC_ONE as int, 0x8000_0000_0000_0000, 0x100_0000_0000);
        }
        Fix { bits: sat_to_i64((n as i128) * (FRAC_ONE as i128)) }
    }

    /// Elementwise addition of scalars (the one-component case).
    pub fn add(self, o: Fix) -> (r: Fix)
        ensures
            r == self.spec_add(o),
    {
        Fix { bits: sat_to_i64((self.bits as i128) + (o.bits as i128)) }
    }

    /// Elementwise subtraction of scalars (the one-component case).
    pub fn sub(self, o: Fix) -> (r: Fix)
        ensures
            r == self.spec_sub(o),
    {
        Fix { bits: sat_to_i64((self.bits as i128) - (o.bits as i128)) }
    }

    /// Fixed-point multiplication.
    pub fn mul(self, o: Fix) -> (r: Fix)
        ensures
            r == self.spec_mul(o),
    {
        proof {
            lemma_mul_abs_bound(
                self.bits as int,
                o.bits as int,
                0x8000_0000_0000_0000,
                0x8000_0000_0000_0000,
            );
        }
        let p: i128 = (self.bits as i128) * (o.bits as i128);
        proof {
            lemma_div_euclid_range(
                p as int,
                0x100_0000_0000,
                0x4000_0000_0000_0000_0000_0000_0000_0000,
                0x100_0000_0000,
            );
        }
        let q = match p.checked_div_euclid(0x100_0000_0000i128) {
            Some(q) => q,
            None => 0,
        };
        Fix { bits: sat_to_i64(q) }
    }

    /// Fixed-point division; a zero divisor yields zero.
    pub fn div(self, o: Fix) -> (r: Fix)
        ensures
            r == self.spec_div(o),
    {
        if o.bits == 0 {
            return Fix { bits: 0 };
        }
        proof {
            lemma_mul_abs_bound(
                self.bits as int,
                FRAC_ONE as int,
                0x8000_0000_0000_0000,
                0x100_0000_0000,
            );
        }
        let p: i128 = (self.bits as i128) * (FRAC_ONE as i128);
        proof {
            lemma_div_euclid_range(
                p as int,
                o.bits as int,
                0x80_0000_0000_0000_0000_0000_0000,
                0x8000_0000_0000_0000,
            );
        }
        let q = match p.checked_div_euclid(o.bits as i128) {
            Some(q) => q,
            None => 0,
        };
        Fix { bits: sat_to_i64(q) }
    }

    /// Remainder with the divisor's sign; a zero divisor yields zero.
    pub fn rem_euclid(self, o: Fix) -> (r: Fix)
        ensures
            r == self.spec_rem_euclid(o),
    {
        if o.bits == 0 {
            return Fix { bits: 0 };
        }
        proof {
            lemma_rem_euclid_range(self.bits as int, o.bits as int);
        }
        let rr = match self.bits.checked_rem_euclid(o.bits) {
            Some(b) => b,
            None => 0,
        };
        if o.bits < 0 && rr != 0 {
            Fix { bits: rr + o.bits }
        } else {
            Fix { bits: rr }
        }
    }

    /// Fixed-point square root, by binary search for the integer root.
    pub fn sqrt(self) -> (r: Fix)
        ensures
            r == self.spec_sqrt(),
    {
        if self.bits < 0 {
            return Fix { bits: 0 };
        }
        proof {
            lemma_mul_abs_bound(
                self.bits as int,
                0x100_0000_0000,
                0x8000_0000_0000_0000,
                0x100_0000_0000,
            );
        }
        let n: u128 = (self.bits as u128) * 0x100_0000_0000u128;
        let mut lo: u128 = 0;
        let mut hi: u128 = 0x10_0000_0000_0000;
        while hi - lo > 1
            invariant
                lo < hi <= 0x10_0000_0000_0000,
                lo * lo <= n,
                n < hi * hi,
            decreases hi - lo,
        {
            let mid = lo + (hi - lo) / 2;
            proof {
                lemma_mul_abs_bound(mid as int, mid as int, 0x10_0000_0000_0000, 0x10_0000_0000_0000);
            }
            if mid * mid <= n {
                lo = mid;
            } else {
                hi = mid;
            }
        }
        proof {
            lemma_isqrt_unique(n as nat, lo as nat);
        }
        Fix { bits: lo as i64 }
    }
}

/// A bare scalar is the one-component case of the component view, so the
/// dimension-generic combinators apply to it as well.
impl Components<1> for Fix {
    type Comp = Fix;

    open spec fn comps(self) -> Seq<Fix> {
        seq![self]
    }

    proof fn lemma_comps_determine(a: Fix, b: Fix) {
        assert(a.comps()[0] == a);
        assert(b.comps()[0] == b);
    }

    fn from_components(comps: Vec<Fix>) -> (r: Fix) {
        let r = comps[0];
        proof {
            assert(r.comps() =~= comps@);
        }
        r
    }

    fn components(self) -> (r: Vec<Fix>) {
        let mut v = Vec::new();
        v.push(self);
        proof {
            assert(v@ =~= self.comps());
        }
        v
    }
}

/// Addition of scalars is commutative.
pub proof fn lemma_fix_add_comm(a: Fix, b: Fix)
    ensures
        a.spec_add(b) == b.spec_add(a),
{
}

/// Multiplication of scalars is commutative.
pub proof fn lemma_fix_mul_comm(a: Fix, b: Fix)
    ensures
        a.spec_mul(b) == b.spec_mul(a),
{
    assert(a.bits * b.bits == b.bits * a.bits) by (nonlinear_arith);
}

/// Zero is the additive identity.
pub proof fn lemma_fix_add_zero(a: Fix)
    ensures
        a.spec_add((Fix { bits: 0 })) == a,
{
}

/// One is the multiplicative identity.
pub proof fn lemma_fix_mul_one(a: Fix)
    ensures
        a.spec_mul(Fix::spec_from_int(1)) == a,
{
    vstd::arithmetic::div_mod::lemma_div_multiples_vanish(a.bits as int, 0x100_0000_0000);
    assert(a.bits * 0x100_0000_0000 == 0x100_0000_0000 * a.bits);
}

/// Zero is absorbing for multiplication.
pub proof fn lemma_fix_mul_zero(a: Fix)
    ensures
        a.spec_mul((Fix { bits: 0 })) == (Fix { bits: 0 }),
{
    vstd::arithmetic::div_mod::lemma_div_of0(0x100_0000_0000);
}

/// The square of a scalar is never negative.
pub proof fn lemma_fix_mul_self_nonneg(a: Fix)
    ensures
        0 <= a.spec_mul(a).bits,
{
    assert(0 <= a.bits * a.bits) by (nonlinear_arith);
    vstd::arithmetic::div_mod::lemma_div_pos_is_pos(a.bits * a.bits, 0x100_0000_0000);
}

/// The sum of non-negative scalars is non-negative.
pub proof fn lemma_fix_add_nonneg(a: Fix, b: Fix)
    requires
        0 <= a.bits,
        0 <= b.bits,
    ensures
        0 <= a.spec_add(b).bits,
{
}

/// The remainder by a non-zero divisor carries the divisor's sign and is
/// smaller in magnitude than the divisor.
pub proof fn lemma_fix_rem_euclid_sign(a: Fix, b: Fix)
    requires
        b.bits != 0,
    ensures
        b.bits > 0 ==> 0 <= a.spec_rem_euclid(b).bits < b.bits,
        b.bits < 0 ==> b.bits < a.spec_rem_euclid(b).bits <= 0,
{
    lemma_rem_euclid_range(a.bits as int, b.bits as int);
}

} // verus!
