//! The two capabilities every algebra type offers: overloaded
//! construction and the component view.

use vstd::prelude::*;

verus! {

/// Overloaded construction: a type can be built from every parameter
/// shape `T` for which it implements this trait.  The shape is resolved
/// at compile time; an unsupported shape fails to build.
pub trait Constructor<T>: Sized {
    /// The value built from `para`.
    spec fn new_spec(para: T) -> Self;

    /// Builds the value described by `new_spec`.
    fn new(para: T) -> (r: Self)
        ensures
            r == Self::new_spec(para),
    ;
}

/// The component view: a type isomorphic to an ordered list of `N`
/// scalars of type `Comp`.  `components` and `from_components` are
/// mutual inverses; `lemma_comps_determine` states the direction that
/// does not already follow from their contracts.
pub trait Components<const N: usize>: Copy + Sized {
    type Comp: Copy;

    /// The components of the value, in canonical order.
    spec fn comps(self) -> Seq<Self::Comp>;

    /// A value is determined by its components, so rebuilding a value
    /// from its own components yields the value itself.
    proof fn lemma_comps_determine(a: Self, b: Self)
        requires
            a.comps() == b.comps(),
        ensures
            a == b,
    ;

    /// Rebuilds a value from its components, in canonical order.
    fn from_components(comps: Vec<Self::Comp>) -> (r: Self)
        requires
            comps@.len() == N,
        ensures
            r.comps() == comps@,
    ;

    /// Reads the components, in canonical order, without mutation.
    fn components(self) -> (r: Vec<Self::Comp>)
        ensures
            r@ == self.comps(),
            r@.len() == N,
    ;
}

} // verus!
