//! A small fixed-size vector / matrix algebra over a fixed-point scalar.
//!
//! The crate provides 2-, 3- and 4-component vector types, a 2x2 matrix,
//! a uniform "view as components" abstraction (`Components`), overloaded
//! construction (`Constructor`), swizzle accessors, elementwise arithmetic,
//! and the dimension-generic combinators `trans` and `reduce`, from which
//! `dot`, `rem` and `sqrt` are built.  A hex-grid coordinate consumer built
//! on that interface lives in `grid`.

pub mod constructs;
pub mod fixed;
pub mod functions;
pub mod grid;
pub mod mat2;
pub mod swizzle2;
pub mod swizzle3;
pub mod swizzle4;
pub mod vec2;
pub mod vec3;
pub mod vec4;
