//! Generic building blocks for pairing-friendly short-Weierstrass curves:
//! an isogeny-based point mapping (evaluating a pair of rational functions
//! to carry a point from an isogenous curve onto a target curve) and an
//! endomorphism-accelerated subgroup membership test, together with the
//! parameter tables of the curves that use them.
//!
//! Base-field arithmetic is supplied by a collaborating field-arithmetic
//! library; every algorithm here is stated and verified over the integer
//! residues that the field elements stand for.

pub mod field;
pub mod swu_iso;
pub mod params;
pub mod subgroup;
pub mod isogeny;
pub mod point;
