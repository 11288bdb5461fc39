//! Affine curve points and the operations the two core algorithms consume:
//! equality, negation, the on-curve test, and scalar multiplication by an
//! arbitrary unsigned big integer (supplied by the collaborating
//! curve-geometry library).
//!
//! A point is modelled by the triple of its coordinate residues and its
//! point-at-infinity flag.

use ark_ec::AffineRepr;
use ark_ec::CurveGroup;
use ark_ff::BigInt;
use ark_ff::PrimeField;
use ark_test_curves::bls12_381::Fq;
use ark_test_curves::bls12_381::G1Affine;
use crate::field::Fp;
use crate::field::fp_add;
use crate::field::fp_eq;
use crate::field::fp_mul;
use crate::field::fp_sub;
use crate::field::q381;
use vstd::prelude::*;

verus! {

/// An affine point: coordinates over the base field plus an infinity flag.
///
/// Invariant (not re-checked here): when the flag is clear, `(x, y)`
/// satisfies the curve's short-Weierstrass equation.
#[derive(Clone, Copy, Debug, PartialEq, Eq)]
pub struct Point {
    pub x: Fp,
    pub y: Fp,
    pub infinity: bool,
}

impl Point {
    /// Both coordinates are canonical residues.
    pub open spec fn wf(self) -> bool {
        self.x.wf() && self.y.wf()
    }

    /// The mathematical value of the point: coordinate residues and flag.
    pub open spec fn model(self) -> (int, int, bool) {
        (self.x.v(), self.y.v(), self.infinity)
    }

    /// A finite point from its coordinates.
    pub fn new(x: Fp, y: Fp) -> (r: Point)
        ensures
            r.model() == (x.v(), y.v(), false),
            x.wf() && y.wf() ==> r.wf(),
    {
        Point { x, y, infinity: false }
    }

    /// The point at infinity.
    pub fn infinity() -> (r: Point)
        ensures
            r.wf(),
            r.model() == (0int, 0int, true),
    {
        Point { x: Fp::zero(), y: Fp::zero(), infinity: true }
    }
}

/// Point equality: both at infinity, or both finite with equal coordinates.
pub open spec fn pt_eq(a: (int, int, bool), b: (int, int, bool)) -> bool {
    if a.2 || b.2 {
        a.2 && b.2
    } else {
        a.0 == b.0 && a.1 == b.1
    }
}

/// The negation of a point: the y-coordinate changes sign.
pub open spec fn neg_model(m: (int, int, bool)) -> (int, int, bool) {
    (m.0, (q381() - m.1) % q381(), m.2)
}

/// Whether a point value lies on the curve `y^2 = x^3 + a*x + b`; the
/// point at infinity always counts as on the curve.
pub open spec fn on_curve_model(m: (int, int, bool), a: int, b: int) -> bool {
    m.2 || (m.1 * m.1) % q381() == (m.0 * m.0 * m.0 + a * m.0 + b) % q381()
}

/// What the collaborating curve library's scalar multiplication returns
/// for a point value and a little-endian limb scalar: the product point,
/// in canonical affine coordinates.
pub uninterp spec fn smul(k: Seq<u64>, px: int, py: int, pinf: bool) -> (int, int, bool);

/// Decides equality of two points, as their models compare.
pub fn point_eq(a: &Point, b: &Point) -> (r: bool)
    requires
        a.wf(),
        b.wf(),
    ensures
        r == pt_eq(a.model(), b.model()),
{
    if a.infinity || b.infinity {
        a.infinity && b.infinity
    } else {
        fp_eq(&a.x, &b.x) && fp_eq(&a.y, &b.y)
    }
}

/// Negates a point by negating its y-coordinate; the infinity flag and the
/// x-coordinate are kept.
pub fn point_neg(p: &Point) -> (r: Point)
    requires
        p.wf(),
    ensures
        r.wf(),
        r.model() == neg_model(p.model()),
{
    Point { x: p.x, y: fp_sub(&Fp::zero(), &p.y), infinity: p.infinity }
}

/// Tests the short-Weierstrass equation `y^2 = x^3 + a*x + b` on a point.
pub fn is_on_curve(p: &Point, a: &Fp, b: &Fp) -> (r: bool)
    requires
        p.wf(),
        a.wf(),
        b.wf(),
    ensures
        r == on_curve_model(p.model(), a.v(), b.v()),
{
    if p.infinity {
        true
    } else {
        let y2 = fp_mul(&p.y, &p.y);
        let x2 = fp_mul(&p.x, &p.x);
        let x3 = fp_mul(&x2, &p.x);
        let ax = fp_mul(a, &p.x);
        let s1 = fp_add(&x3, &ax);
        let rhs = fp_add(&s1, b);
        proof {
            let px = p.x.v();
            let av = a.v();
            let bv = b.v();
            vstd::arithmetic::div_mod::lemma_mul_mod_noop_left(px * px, px, q381());
            vstd::arithmetic::div_mod::lemma_add_mod_noop(px * px * px, av * px, q381());
            vstd::arithmetic::div_mod::lemma_small_mod((av * px % q381()) as nat, q381() as nat);
            vstd::arithmetic::div_mod::lemma_add_mod_noop(px * px * px + av * px, bv, q381());
            vstd::arithmetic::div_mod::lemma_small_mod(bv as nat, q381() as nat);
        }
        fp_eq(&y2, &rhs)
    }
}

/// Multiplies a point by an arbitrary unsigned little-endian limb scalar.
///
/// This is the glue to the collaborating curve library's double-and-add;
/// the result is pinned to the `smul` value of the inputs.
pub fn scalar_mul(p: &Point, k: &Vec<u64>) -> (r: Point)
    requires
        p.wf(),
    ensures
        r.wf(),
        r.model() == smul(k@, p.x.v(), p.y.v(), p.infinity),
{
    point_smul(p, k)
}

/// Relies on `ark_ec`'s `mul_bigint` on short-Weierstrass affine points:
/// plain double-and-add over the limbs of the scalar, so the result is a
/// function of the point and the scalar alone, here named `smul`; the
/// product is returned in canonical affine coordinates.
#[verifier::external_body]
pub(crate) fn point_smul(p: &Point, k: &Vec<u64>) -> (r: Point)
    requires
        p.wf(),
    ensures
        r.wf(),
        r.model() == smul(k@, p.x.v(), p.y.v(), p.infinity),
{
    let base = if p.infinity {
        G1Affine::identity()
    } else {
        let fx = Fq::from_bigint(BigInt::new(p.x.limbs)).unwrap();
        let fy = Fq::from_bigint(BigInt::new(p.y.limbs)).unwrap();
        G1Affine::new_unchecked(fx, fy)
    };
    match base.mul_bigint(k.as_slice()).into_affine().xy() {
        Some((ox, oy)) => Point {
            x: Fp { limbs: ox.into_bigint().0 },
            y: Fp { limbs: oy.into_bigint().0 },
            infinity: false,
        },
        None => Point { x: Fp { limbs: [0; 6] }, y: Fp { limbs: [0; 6] }, infinity: true },
    }
}

} // verus!
