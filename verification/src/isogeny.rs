//! The isogeny map evaluator: carries a point from an isogenous source
//! curve onto the target curve by evaluating a pair of rational functions
//! of the coordinates.
//!
//! The map is described by four polynomial coefficient sequences (constant
//! term first): numerator and denominator of the x-coordinate map, and
//! numerator and denominator of the scaling factor of the y-coordinate
//! map. Each polynomial is evaluated by Horner's rule over the field.

use crate::field::Fp;
use crate::field::fp_add;
use crate::field::fp_inv;
use crate::field::fp_mul;
use crate::field::inv_q;
use crate::field::q381;
use crate::point::Point;
use vstd::prelude::*;

verus! {

/// An isogeny map descriptor: the four coefficient sequences, constant
/// term first. Whether the sequences actually describe an isogeny between
/// two specific curves is established by offline derivation, not here.
#[derive(Clone, Debug)]
pub struct IsogenyMap {
    pub x_num: Vec<Fp>,
    pub x_den: Vec<Fp>,
    pub y_num: Vec<Fp>,
    pub y_den: Vec<Fp>,
}

/// A denominator of the map evaluated to zero: the map is undefined at the
/// input. This signals malformed descriptor data or a source point outside
/// the map's domain, an invariant violation rather than a recoverable
/// condition.
#[derive(Clone, Copy, Debug, PartialEq, Eq)]
pub struct MapSingularity;

/// The residues of a coefficient sequence.
pub open spec fn poly_vals(cs: Seq<Fp>) -> Seq<int> {
    cs.map_values(|c: Fp| c.v())
}

/// All coefficients are canonical residues.
pub open spec fn coeffs_wf(cs: Seq<Fp>) -> bool {
    forall|i: int| 0 <= i < cs.len() ==> #[trigger] cs[i].wf()
}

impl IsogenyMap {
    /// Every coefficient of the four sequences is a canonical residue.
    pub open spec fn wf(self) -> bool {
        coeffs_wf(self.x_num@) && coeffs_wf(self.x_den@) && coeffs_wf(self.y_num@) && coeffs_wf(
            self.y_den@,
        )
    }
}

/// The value of a polynomial (coefficients constant term first, as
/// residues) at `x`, reduced modulo the field's prime.
pub open spec fn horner(cs: Seq<int>, x: int) -> int
    decreases cs.len(),
{
    if cs.len() == 0 {
        0
    } else {
        (cs[0] + x * horner(cs.drop_first(), x)) % q381()
    }
}

/// Where the isogeny carries a point value, given the four coefficient
/// sequences: infinity maps to infinity; a finite point maps to
/// `(x_num(x)/x_den(x), y * y_num(x)/y_den(x))`, or to no value at all
/// when a denominator vanishes at `x`.
pub open spec fn map_model(
    m: (int, int, bool),
    xn: Seq<int>,
    xd: Seq<int>,
    yn: Seq<int>,
    yd: Seq<int>,
) -> Option<(int, int, bool)> {
    if m.2 {
        Some((0int, 0int, true))
    } else if horner(xd, m.0) == 0 || horner(yd, m.0) == 0 {
        None
    } else {
        Some(
            (
                (horner(xn, m.0) * inv_q(horner(xd, m.0))) % q381(),
                (m.1 * ((horner(yn, m.0) * inv_q(horner(yd, m.0))) % q381())) % q381(),
                false,
            ),
        )
    }
}

/// One unfolding of `horner` on a suffix of the coefficient sequence.
proof fn lemma_horner_step(vals: Seq<int>, i: int, x: int)
    requires
        0 <= i < vals.len(),
    ensures
        horner(vals.skip(i), x) == (vals[i] + x * horner(vals.skip(i + 1), x)) % q381(),
{
    assert(vals.skip(i).drop_first() =~= vals.skip(i + 1));
    assert(vals.skip(i)[0] == vals[i]);
}

/// Folding a reduced product into a reduced accumulator keeps the value:
/// `((h * x) mod q + c) mod q == (c + x * h) mod q` for a reduced `c`.
proof fn lemma_mod_mul_add(c: int, x: int, h: int)
    requires
        0 <= c < q381(),
    ensures
        ((h * x) % q381() + c) % q381() == (c + x * h) % q381(),
{
    vstd::arithmetic::div_mod::lemma_add_mod_noop(h * x, c, q381());
    vstd::arithmetic::div_mod::lemma_small_mod(c as nat, q381() as nat);
    assert(h * x == x * h) by (nonlinear_arith);
}

/// Evaluates a polynomial over the field by Horner's rule, from the
/// highest-degree coefficient down.
pub fn horner_eval(cs: &Vec<Fp>, x: &Fp) -> (r: Fp)
    requires
        coeffs_wf(cs@),
        x.wf(),
    ensures
        r.wf(),
        r.v() == horner(poly_vals(cs@), x.v()),
{
    let mut acc = Fp::zero();
    let mut i = cs.len();
    while i > 0
        invariant
            i <= cs.len(),
            coeffs_wf(cs@),
            x.wf(),
            acc.wf(),
            acc.v() == horner(poly_vals(cs@).skip(i as int), x.v()),
        decreases i,
    {
        i = i - 1;
        let prod = fp_mul(&acc, x);
        acc = fp_add(&prod, &cs[i]);
        proof {
            let vals = poly_vals(cs@);
            assert(vals[i as int] == cs@[i as int].v());
            lemma_horner_step(vals, i as int, x.v());
            lemma_mod_mul_add(vals[i as int], x.v(), horner(vals.skip(i + 1), x.v()));
        }
    }
    proof {
        assert(poly_vals(cs@).skip(0) =~= poly_vals(cs@));
    }
    acc
}

/// Carries a point from the source curve onto the target curve through the
/// isogeny the descriptor encodes.
///
/// The input must lie on the source curve (a documented precondition of
/// the pipeline, not re-checked here); the point at infinity maps to the
/// point at infinity with no further computation. A vanishing denominator
/// is reported as a `MapSingularity` fault.
pub fn map_via_isogeny(p: &Point, desc: &IsogenyMap) -> (r: Result<Point, MapSingularity>)
    requires
        p.wf(),
        desc.wf(),
    ensures
        ({
            let m = map_model(
                p.model(),
                poly_vals(desc.x_num@),
                poly_vals(desc.x_den@),
                poly_vals(desc.y_num@),
                poly_vals(desc.y_den@),
            );
            match r {
                Ok(q) => q.wf() && m == Some(q.model()),
                Err(_) => m is None,
            }
        }),
{
    if p.infinity {
        return Ok(Point::infinity());
    }
    let xn = horner_eval(&desc.x_num, &p.x);
    let xd = horner_eval(&desc.x_den, &p.x);
    let yn = horner_eval(&desc.y_num, &p.x);
    let yd = horner_eval(&desc.y_den, &p.x);
    let xdi = match fp_inv(&xd) {
        Some(f) => f,
        None => {
            return Err(MapSingularity);
        },
    };
    let ydi = match fp_inv(&yd) {
        Some(f) => f,
        None => {
            return Err(MapSingularity);
        },
    };
    let out_x = fp_mul(&xn, &xdi);
    let out_y = fp_mul(&p.y, &fp_mul(&yn, &ydi));
    Ok(Point::new(out_x, out_y))
}

/// Infinity preservation: the isogeny map carries the point at infinity to
/// the point at infinity, whatever the descriptor holds.
pub proof fn lemma_map_preserves_infinity(
    m: (int, int, bool),
    xn: Seq<int>,
    xd: Seq<int>,
    yn: Seq<int>,
    yd: Seq<int>,
)
    requires
        m.2,
    ensures
        map_model(m, xn, xd, yn, yd) == Some((0int, 0int, true)),
{
}

/// Determinism: the isogeny map's outcome is a function of the point and
/// the descriptor alone, so two invocations on identical inputs agree.
pub proof fn lemma_map_deterministic(
    m: (int, int, bool),
    xn: Seq<int>,
    xd: Seq<int>,
    yn: Seq<int>,
    yd: Seq<int>,
    r1: Option<(int, int, bool)>,
    r2: Option<(int, int, bool)>,
)
    requires
        r1 == map_model(m, xn, xd, yn, yd),
        r2 == map_model(m, xn, xd, yn, yd),
    ensures
        r1 == r2,
{
}

} // verus!
