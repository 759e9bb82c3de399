//! The dimension-generic combinators `trans` and `reduce`, and the
//! numeric functions built on them: `dot`, `rem`, `sqrt`.
//!
//! Both combinators work on any type with the component view, whatever
//! its arity: for each component index, in ascending order, they gather
//! the components of all inputs at that index and hand them to a
//! caller-supplied closure.  The closure's meaning is passed alongside
//! it as a ghost function `f`, so that the contracts can state the
//! result exactly.

use crate::constructs::Components;
use crate::fixed::Fix;
use vstd::prelude::*;

verus! {

/// The `i`-th components of all `P` inputs, gathered in input order.
pub open spec fn gather<const P: usize, const N: usize, T: Components<N>>(
    value: [T; P],
    i: int,
) -> Seq<T::Comp> {
    Seq::new(P as nat, |j: int| value@[j].comps()[i])
}

/// Maps the inputs elementwise: component `i` of the result is `f`
/// applied to the gathered `i`-th components of the inputs.
pub fn trans<const P: usize, const N: usize, T: Components<N>, F: Fn(Vec<T::Comp>) -> T::Comp>(
    value: [T; P],
    clos: F,
    Ghost(f): Ghost<spec_fn(Seq<T::Comp>) -> T::Comp>,
) -> (r: T)
    requires
        forall|i: int, v: Vec<T::Comp>|
            #![trigger gather::<P, N, T>(value, i), call_requires(clos, (v,))]
            0 <= i < N && v@ == gather::<P, N, T>(value, i) ==> call_requires(clos, (v,)),
        forall|v: Vec<T::Comp>, o: T::Comp| call_ensures(clos, (v,), o) ==> o == f(v@),
    ensures
        r.comps().len() == N,
        forall|i: int| 0 <= i < N ==> #[trigger] r.comps()[i] == f(gather::<P, N, T>(value, i)),
{
    let mut out: Vec<T::Comp> = Vec::new();
    let mut i: usize = 0;
    while i < N
        invariant
            i <= N,
            out@.len() == i,
            forall|ii: int, v: Vec<T::Comp>|
                #![trigger gather::<P, N, T>(value, ii), call_requires(clos, (v,))]
                0 <= ii < N && v@ == gather::<P, N, T>(value, ii) ==> call_requires(clos, (v,)),
            forall|v: Vec<T::Comp>, o: T::Comp| call_ensures(clos, (v,), o) ==> o == f(v@),
            forall|k: int| 0 <= k < i ==> #[trigger] out@[k] == f(gather::<P, N, T>(value, k)),
        decreases N - i,
    {
        let mut g: Vec<T::Comp> = Vec::new();
        let mut j: usize = 0;
        while j < P
            invariant
                j <= P,
                i < N,
                g@.len() == j,
                forall|k: int| 0 <= k < j ==> g@[k] == value@[k].comps()[i as int],
            decreases P - j,
        {
            let cs = value[j].components();
            g.push(cs[i]);
            j += 1;
        }
        proof {
            assert(g@ =~= gather::<P, N, T>(value, i as int));
        }
        let c = clos(g);
        out.push(c);
        i += 1;
    }
    T::from_components(out)
}

/// The fold that `reduce` computes: the accumulator after the first `n`
/// steps of applying `f` to the gathered components, in ascending index
/// order, starting from `init`.
pub open spec fn spec_reduce<const P: usize, const N: usize, U, T: Components<N>>(
    value: [T; P],
    init: U,
    f: spec_fn(Seq<T::Comp>, U) -> U,
    n: int,
) -> U
    decreases n,
{
    if n <= 0 {
        init
    } else {
        f(gather::<P, N, T>(value, n - 1), spec_reduce(value, init, f, n - 1))
    }
}

/// Folds over the component indices in ascending order: each step hands
/// the gathered `i`-th components of the inputs and the accumulator to
/// the closure, whose result becomes the next accumulator.
pub fn reduce<const P: usize, const N: usize, U, T: Components<N>, F: Fn(Vec<T::Comp>, U) -> U>(
    value: [T; P],
    init: U,
    clos: F,
    Ghost(f): Ghost<spec_fn(Seq<T::Comp>, U) -> U>,
) -> (r: U)
    requires
        forall|i: int, v: Vec<T::Comp>, u: U|
            #![trigger gather::<P, N, T>(value, i), call_requires(clos, (v, u))]
            0 <= i < N && v@ == gather::<P, N, T>(value, i) ==> call_requires(clos, (v, u)),
        forall|v: Vec<T::Comp>, u: U, o: U| call_ensures(clos, (v, u), o) ==> o == f(v@, u),
    ensures
        r == spec_reduce::<P, N, U, T>(value, init, f, N as int),
{
    let mut acc = init;
    let mut i: usize = 0;
    while i < N
        invariant
            i <= N,
            acc == spec_reduce::<P, N, U, T>(value, init, f, i as int),
            forall|ii: int, v: Vec<T::Comp>, u: U|
                #![trigger gather::<P, N, T>(value, ii), call_requires(clos, (v, u))]
                0 <= ii < N && v@ == gather::<P, N, T>(value, ii) ==> call_requires(clos, (v, u)),
            forall|v: Vec<T::Comp>, u: U, o: U| call_ensures(clos, (v, u), o) ==> o == f(v@, u),
        decreases N - i,
    {
        let mut g: Vec<T::Comp> = Vec::new();
        let mut j: usize = 0;
        while j < P
            invariant
                j <= P,
                i < N,
                g@.len() == j,
                forall|k: int| 0 <= k < j ==> g@[k] == value@[k].comps()[i as int],
            decreases P - j,
        {
            let cs = value[j].components();
            g.push(cs[i]);
            j += 1;
        }
        proof {
            assert(g@ =~= gather::<P, N, T>(value, i as int));
        }
        acc = clos(g, acc);
        i += 1;
    }
    acc
}

/// The inner product of two component sequences over their first `n`
/// positions, summed in ascending index order.
pub open spec fn spec_dot(a: Seq<Fix>, b: Seq<Fix>, n: int) -> Fix
    decreases n,
{
    if n <= 0 {
        Fix { bits: 0 }
    } else {
        spec_dot(a, b, n - 1).spec_add(a[n - 1].spec_mul(b[n - 1]))
    }
}

/// The step of the inner-product fold.
pub open spec fn dot_step() -> spec_fn(Seq<Fix>, Fix) -> Fix {
    |s: Seq<Fix>, acc: Fix| acc.spec_add(s[0].spec_mul(s[1]))
}

/// The inner-product fold equals the inner-product formula.
proof fn lemma_dot_fold<const N: usize, T: Components<N, Comp = Fix>>(value: [T; 2], n: int)
    ensures
        spec_reduce::<2, N, Fix, T>(value, (Fix { bits: 0 }), dot_step(), n) == spec_dot(
            value@[0].comps(),
            value@[1].comps(),
            n,
        ),
    decreases n,
{
    if n > 0 {
        lemma_dot_fold::<N, T>(value, n - 1);
        assert(gather::<2, N, T>(value, n - 1)[0] == value@[0].comps()[n - 1]);
        assert(gather::<2, N, T>(value, n - 1)[1] == value@[1].comps()[n - 1]);
    }
}

/// The squared norm is never negative: the inner product of a sequence
/// with itself folds non-negative squares with saturating addition.
pub proof fn lemma_dot_self_nonneg(a: Seq<Fix>, n: int)
    ensures
        0 <= spec_dot(a, a, n).bits,
    decreases n,
{
    if n > 0 {
        lemma_dot_self_nonneg(a, n - 1);
        crate::fixed::lemma_fix_mul_self_nonneg(a[n - 1]);
        crate::fixed::lemma_fix_add_nonneg(spec_dot(a, a, n - 1), a[n - 1].spec_mul(a[n - 1]));
    }
}

/// The inner product is symmetric in its two arguments.
pub proof fn lemma_dot_comm(a: Seq<Fix>, b: Seq<Fix>, n: int)
    ensures
        spec_dot(a, b, n) == spec_dot(b, a, n),
    decreases n,
{
    if n > 0 {
        lemma_dot_comm(a, b, n - 1);
        crate::fixed::lemma_fix_mul_comm(a[n - 1], b[n - 1]);
    }
}

/// The inner product: folds `acc + l * r` over the paired components,
/// in ascending index order.
pub fn dot<const N: usize, T: Components<N, Comp = Fix>>(lhs: T, rhs: T) -> (r: Fix)
    ensures
        r == spec_dot(lhs.comps(), rhs.comps(), N as int),
{
    let arr = [lhs, rhs];
    let r = reduce(
        arr,
        Fix { bits: 0 },
        (|c: Vec<Fix>, acc: Fix| -> (o: Fix)
            requires
                c@.len() == 2,
            ensures
                o == dot_step()(c@, acc),
            {
                proof {
                    assert(dot_step()(c@, acc) == acc.spec_add(c@[0].spec_mul(c@[1])));
                }
                acc.add(c[0].mul(c[1]))
            }),
        Ghost(dot_step()),
    );
    proof {
        lemma_dot_fold::<N, T>(arr, N as int);
        assert(arr@[0] == lhs);
        assert(arr@[1] == rhs);
    }
    r
}

/// The elementwise Euclidean-remainder step.
pub open spec fn rem_step() -> spec_fn(Seq<Fix>) -> Fix {
    |s: Seq<Fix>| s[0].spec_rem_euclid(s[1])
}

/// The elementwise Euclidean remainder: each component of the result is
/// the remainder of the corresponding components of `lhs` and `rhs`.
pub fn rem<const N: usize, T: Components<N, Comp = Fix>>(lhs: T, rhs: T) -> (r: T)
    ensures
        r.comps().len() == N,
        forall|i: int|
            0 <= i < N ==> #[trigger] r.comps()[i] == lhs.comps()[i].spec_rem_euclid(
                rhs.comps()[i],
            ),
{
    let arr = [lhs, rhs];
    let r = trans(
        arr,
        (|c: Vec<Fix>| -> (o: Fix)
            requires
                c@.len() == 2,
            ensures
                o == rem_step()(c@),
            {
                proof {
                    assert(rem_step()(c@) == c@[0].spec_rem_euclid(c@[1]));
                }
                c[0].rem_euclid(c[1])
            }),
        Ghost(rem_step()),
    );
    proof {
        assert forall|i: int|
            0 <= i < N implies #[trigger] r.comps()[i] == lhs.comps()[i].spec_rem_euclid(
            rhs.comps()[i],
        ) by {
            assert(r.comps()[i] == rem_step()(gather::<2, N, T>(arr, i)));
            assert(gather::<2, N, T>(arr, i)[0] == lhs.comps()[i]);
            assert(gather::<2, N, T>(arr, i)[1] == rhs.comps()[i]);
        }
    }
    r
}

/// The elementwise square-root step.
pub open spec fn sqrt_step() -> spec_fn(Seq<Fix>) -> Fix {
    |s: Seq<Fix>| s[0].spec_sqrt()
}

/// The elementwise square root.
pub fn sqrt<const N: usize, T: Components<N, Comp = Fix>>(value: T) -> (r: T)
    ensures
        r.comps().len() == N,
        forall|i: int| 0 <= i < N ==> #[trigger] r.comps()[i] == value.comps()[i].spec_sqrt(),
{
    let arr = [value];
    let r = trans(
        arr,
        (|c: Vec<Fix>| -> (o: Fix)
            requires
                c@.len() == 1,
            ensures
                o == sqrt_step()(c@),
            {
                proof {
                    assert(sqrt_step()(c@) == c@[0].spec_sqrt());
                }
                c[0].sqrt()
            }),
        Ghost(sqrt_step()),
    );
    proof {
        assert forall|i: int|
            0 <= i < N implies #[trigger] r.comps()[i] == value.comps()[i].spec_sqrt() by {
            assert(r.comps()[i] == sqrt_step()(gather::<1, N, T>(arr, i)));
            assert(gather::<1, N, T>(arr, i)[0] == value.comps()[i]);
        }
    }
    r
}

} // verus!
