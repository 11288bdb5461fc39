//! The base field of the BLS12-381 G1 curve, modelled as canonical residues.
//!
//! A field element is held as six little-endian 64-bit limbs in fully
//! reduced form; its mathematical value is the integer the limbs encode.
//! The four ring operations and inversion are supplied by the
//! collaborating field-arithmetic library, each stated here as a contract
//! over the residues; the equality test is decided locally on the limbs.

use ark_ff::PrimeField;
use ark_ff::Field;
use ark_ff::BigInt;
use ark_test_curves::bls12_381::Fq;
use vstd::prelude::*;

verus! {

/// The prime modulus of the BLS12-381 base field.
pub open spec fn q381() -> int {
    0x1a0111ea397fe69a4b1ba7b6434bacd764774b84f38512bf6730d2a0f6b0f6241eabfffeb153ffffb9feffffffffaaabint
}

/// The integer a little-endian limb array stands for.
pub open spec fn limbs_val(l: [u64; 6]) -> int {
    l[0]
        + l[1] * 0x10000000000000000int
        + l[2] * 0x100000000000000000000000000000000int
        + l[3] * 0x1000000000000000000000000000000000000000000000000int
        + l[4] * 0x10000000000000000000000000000000000000000000000000000000000000000int
        + l[5] * 0x100000000000000000000000000000000000000000000000000000000000000000000000000000000int
}

/// A base-field element: six little-endian 64-bit limbs, fully reduced.
#[derive(Clone, Copy, Debug, PartialEq, Eq)]
pub struct Fp {
    pub limbs: [u64; 6],
}

impl Fp {
    /// The residue this element stands for.
    pub open spec fn v(self) -> int {
        limbs_val(self.limbs)
    }

    /// Canonical form: the value is a reduced residue.
    pub open spec fn wf(self) -> bool {
        0 <= self.v() < q381()
    }

    /// Embeds a machine word into the field.
    pub fn from_u64(x: u64) -> (r: Fp)
        ensures
            r.wf(),
            r.v() == x,
    {
        Fp { limbs: [x, 0, 0, 0, 0, 0] }
    }

    /// Builds an element from little-endian limbs already in reduced form.
    pub fn from_limbs(l: [u64; 6]) -> (r: Fp)
        requires
            limbs_val(l) < q381(),
        ensures
            r.wf(),
            r.v() == limbs_val(l),
    {
        Fp { limbs: l }
    }

    /// The additive identity.
    pub fn zero() -> (r: Fp)
        ensures
            r.wf(),
            r.v() == 0,
    {
        Fp::from_u64(0)
    }

    /// The multiplicative identity.
    pub fn one() -> (r: Fp)
        ensures
            r.wf(),
            r.v() == 1,
    {
        Fp::from_u64(1)
    }
}

/// The multiplicative inverse of a residue, as the unique reduced witness.
pub open spec fn inv_q(a: int) -> int {
    choose|b: int| 0 <= b < q381() && #[trigger] ((a * b) % q381()) == 1
}

/// Relies on `ark_ff`'s prime-field addition: the sum of two canonical
/// residues, reduced modulo the field's prime.
#[verifier::external_body]
pub(crate) fn fp_add(a: &Fp, b: &Fp) -> (r: Fp)
    requires
        a.wf(),
        b.wf(),
    ensures
        r.wf(),
        r.v() == (a.v() + b.v()) % q381(),
{
    let fa = Fq::from_bigint(BigInt::new(a.limbs)).unwrap();
    let fb = Fq::from_bigint(BigInt::new(b.limbs)).unwrap();
    Fp { limbs: (fa + fb).into_bigint().0 }
}

/// Relies on `ark_ff`'s prime-field subtraction: the difference of two
/// canonical residues, reduced modulo the field's prime.
#[verifier::external_body]
pub(crate) fn fp_sub(a: &Fp, b: &Fp) -> (r: Fp)
    requires
        a.wf(),
        b.wf(),
    ensures
        r.wf(),
        r.v() == (a.v() - b.v() + q381()) % q381(),
{
    let fa = Fq::from_bigint(BigInt::new(a.limbs)).unwrap();
    let fb = Fq::from_bigint(BigInt::new(b.limbs)).unwrap();
    Fp { limbs: (fa - fb).into_bigint().0 }
}

/// Relies on `ark_ff`'s prime-field multiplication: the product of two
/// canonical residues, reduced modulo the field's prime.
#[verifier::external_body]
pub(crate) fn fp_mul(a: &Fp, b: &Fp) -> (r: Fp)
    requires
        a.wf(),
        b.wf(),
    ensures
        r.wf(),
        r.v() == (a.v() * b.v()) % q381(),
{
    let fa = Fq::from_bigint(BigInt::new(a.limbs)).unwrap();
    let fb = Fq::from_bigint(BigInt::new(b.limbs)).unwrap();
    Fp { limbs: (fa * fb).into_bigint().0 }
}

/// Relies on `ark_ff`'s field inversion: it fails exactly on zero, and
/// otherwise returns the unique reduced residue whose product with the
/// input is one.
#[verifier::external_body]
pub(crate) fn fp_inv(a: &Fp) -> (r: Option<Fp>)
    requires
        a.wf(),
    ensures
        match r {
            Some(b) => a.v() != 0 && b.wf() && (a.v() * b.v()) % q381() == 1 && b.v() == inv_q(
                a.v(),
            ),
            None => a.v() == 0,
        },
{
    let fa = Fq::from_bigint(BigInt::new(a.limbs)).unwrap();
    fa.inverse().map(|fi| Fp { limbs: fi.into_bigint().0 })
}

/// The little-endian limb encoding is injective: equal values have equal
/// limbs, digit by digit.
proof fn lemma_limbs_val_injective(a: [u64; 6], b: [u64; 6])
    requires
        limbs_val(a) == limbs_val(b),
    ensures
        a[0] == b[0] && a[1] == b[1] && a[2] == b[2] && a[3] == b[3] && a[4] == b[4] && a[5]
            == b[5],
{
    let c1 = 0x10000000000000000int;
    let ra1 = a[1] + a[2] * c1 + a[3] * c1 * c1 + a[4] * c1 * c1 * c1 + a[5] * c1 * c1 * c1 * c1;
    let rb1 = b[1] + b[2] * c1 + b[3] * c1 * c1 + b[4] * c1 * c1 * c1 + b[5] * c1 * c1 * c1 * c1;
    vstd::arithmetic::div_mod::lemma_fundamental_div_mod_converse(
        limbs_val(a), c1, ra1, a[0] as int);
    vstd::arithmetic::div_mod::lemma_fundamental_div_mod_converse(
        limbs_val(b), c1, rb1, b[0] as int);
    let ra2 = a[2] + a[3] * c1 + a[4] * c1 * c1 + a[5] * c1 * c1 * c1;
    let rb2 = b[2] + b[3] * c1 + b[4] * c1 * c1 + b[5] * c1 * c1 * c1;
    vstd::arithmetic::div_mod::lemma_fundamental_div_mod_converse(ra1, c1, ra2, a[1] as int);
    vstd::arithmetic::div_mod::lemma_fundamental_div_mod_converse(rb1, c1, rb2, b[1] as int);
    let ra3 = a[3] + a[4] * c1 + a[5] * c1 * c1;
    let rb3 = b[3] + b[4] * c1 + b[5] * c1 * c1;
    vstd::arithmetic::div_mod::lemma_fundamental_div_mod_converse(ra2, c1, ra3, a[2] as int);
    vstd::arithmetic::div_mod::lemma_fundamental_div_mod_converse(rb2, c1, rb3, b[2] as int);
    let ra4 = a[4] + a[5] * c1;
    let rb4 = b[4] + b[5] * c1;
    vstd::arithmetic::div_mod::lemma_fundamental_div_mod_converse(ra3, c1, ra4, a[3] as int);
    vstd::arithmetic::div_mod::lemma_fundamental_div_mod_converse(rb3, c1, rb4, b[3] as int);
    vstd::arithmetic::div_mod::lemma_fundamental_div_mod_converse(
        ra4, c1, a[5] as int, a[4] as int);
    vstd::arithmetic::div_mod::lemma_fundamental_div_mod_converse(
        rb4, c1, b[5] as int, b[4] as int);
}

/// Decides value equality of two field elements: canonical limbs encode
/// equal values exactly when they are equal limb by limb.
pub(crate) fn fp_eq(a: &Fp, b: &Fp) -> (r: bool)
    requires
        a.wf(),
        b.wf(),
    ensures
        r == (a.v() == b.v()),
{
    let r = a.limbs[0] == b.limbs[0] && a.limbs[1] == b.limbs[1] && a.limbs[2] == b.limbs[2]
        && a.limbs[3] == b.limbs[3] && a.limbs[4] == b.limbs[4] && a.limbs[5] == b.limbs[5];
    proof {
        if a.v() == b.v() {
            lemma_limbs_val_injective(a.limbs, b.limbs);
        }
    }
    r
}

} // verus!
