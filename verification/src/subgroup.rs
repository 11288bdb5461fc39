//! The endomorphism-accelerated subgroup membership test.
//!
//! For curves whose efficient endomorphism satisfies `phi(P) = -[x^2]P` on
//! the prime-order subgroup (`x` the curve's seed), membership is decided
//! by two scalar multiplications by the small seed instead of one by the
//! very large subgroup order.

use crate::field::Fp;
use crate::field::fp_mul;
use crate::field::q381;
use crate::point::Point;
use crate::point::neg_model;
use crate::point::point_eq;
use crate::point::point_neg;
use crate::point::point_smul;
use crate::point::pt_eq;
use crate::point::smul;
use vstd::prelude::*;

verus! {

/// The endomorphism's action on a point value: the x-coordinate is scaled
/// by the curve's cubic-root-of-unity constant, the y-coordinate and the
/// infinity flag are kept.
pub open spec fn endo_model(beta: int, m: (int, int, bool)) -> (int, int, bool) {
    ((beta * m.0) % q381(), m.1, m.2)
}

/// The verdict of the membership test on a point value: a finite point
/// fixed by the seed multiplication is rejected outright; otherwise the
/// point passes exactly when `-[seed^2]P` equals the endomorphism of `P`.
pub open spec fn subgroup_model(m: (int, int, bool), beta: int, seed: Seq<u64>) -> bool {
    let q1 = smul(seed, m.0, m.1, m.2);
    if pt_eq(q1, m) && !m.2 {
        false
    } else {
        pt_eq(neg_model(smul(seed, q1.0, q1.1, q1.2)), endo_model(beta, m))
    }
}

/// Applies the curve's efficient endomorphism: multiply the x-coordinate
/// by `beta`, a fixed cubic root of unity in the base field.
pub fn apply_endomorphism(p: &Point, beta: &Fp) -> (r: Point)
    requires
        p.wf(),
        beta.wf(),
    ensures
        r.wf(),
        r.model() == endo_model(beta.v(), p.model()),
{
    Point { x: fp_mul(beta, &p.x), y: p.y, infinity: p.infinity }
}

/// Decides whether `p` lies in the prime-order subgroup of a curve whose
/// endomorphism multiplies the x-coordinate by `beta` and whose seed is
/// the little-endian limb scalar `seed` — without a scalar multiplication
/// by the full subgroup order.
///
/// The input must already be known to lie on the curve: for a point off
/// the curve the boolean is not meaningful. The early-out that rejects a
/// finite fixed point of the seed multiplication is a deliberate
/// special-case filter of the underlying construction, kept exactly as
/// documented there.
pub fn is_in_prime_order_subgroup(p: &Point, beta: &Fp, seed: &Vec<u64>) -> (r: bool)
    requires
        p.wf(),
        beta.wf(),
    ensures
        r == subgroup_model(p.model(), beta.v(), seed@),
{
    let x_times_p = point_smul(p, seed);
    if point_eq(&x_times_p, p) && !p.infinity {
        return false;
    }
    let minus_x_squared_times_p = point_neg(&point_smul(&x_times_p, seed));
    let endomorphism_p = apply_endomorphism(p, beta);
    point_eq(&minus_x_squared_times_p, &endomorphism_p)
}

/// Early-out coverage: a finite point fixed by the seed multiplication is
/// rejected by the membership test, whatever the endomorphism comparison
/// would have said.
pub proof fn lemma_early_out_rejects(m: (int, int, bool), beta: int, seed: Seq<u64>)
    requires
        !m.2,
        pt_eq(smul(seed, m.0, m.1, m.2), m),
    ensures
        !subgroup_model(m, beta, seed),
{
}

/// Determinism: the membership verdict is a function of the point, the
/// endomorphism constant and the seed alone, so two invocations on
/// identical inputs agree.
pub proof fn lemma_subgroup_deterministic(
    m: (int, int, bool),
    beta: int,
    seed: Seq<u64>,
    r1: bool,
    r2: bool,
)
    requires
        r1 == subgroup_model(m, beta, seed),
        r2 == subgroup_model(m, beta, seed),
    ensures
        r1 == r2,
{
}

} // verus!
