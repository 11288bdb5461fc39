//! The parameter set of the curve isogenous to BLS12-377 G2, used by its
//! hash-to-curve pipeline: cofactor data, Weierstrass coefficients,
//! generator and primitive element, all over the degree-2 extension of
//! the BLS12-377 base field.
//!
//! The coordinates of that extension field are carried here as plain
//! little-endian limb data; the arithmetic of that field stays with the
//! collaborating field library of the curve that consumes these tables.

use crate::field::limbs_val;
use vstd::prelude::*;

verus! {

/// A constant of a degree-2 extension field, as the little-endian limb
/// encodings of its two coordinates over the base prime field.
#[derive(Clone, Copy, Debug, PartialEq, Eq)]
pub struct Fq2Repr {
    pub c0: [u64; 6],
    pub c1: [u64; 6],
}

impl Fq2Repr {
    /// The pair of coordinate values the limbs encode.
    pub open spec fn v(self) -> (int, int) {
        (limbs_val(self.c0), limbs_val(self.c1))
    }
}

/// The parameter set of the curve isogenous to BLS12-377 G2; its order
/// equals the order of the curve it maps onto.
#[derive(Clone, Copy, Debug, Default, PartialEq, Eq)]
pub struct SwuIsoParameters;

impl SwuIsoParameters {
    /// COFACTOR =
    /// 7923214915284317143930293550643874566881017850177945424769256759165301436616933228209277966774092486467289478618404761412630691835764674559376407658497,
    /// the same as for the curve this one is isogenous to, as
    /// little-endian limbs.
    pub fn cofactor() -> (r: Vec<u64>)
        ensures
            r@ == seq![0x0000000000000001u64, 0x452217cc90000000u64, 0xa0f3622fba094800u64, 0xd693e8c36676bd09u64, 0x8c505634fae2e189u64, 0xfbb36b00e1dcc40cu64, 0xddd88d99a6f6a829u64, 0x0026ba558ae9562au64],
    {
        let mut v: Vec<u64> = Vec::new();
        v.push(0x0000000000000001u64);
        v.push(0x452217cc90000000u64);
        v.push(0xa0f3622fba094800u64);
        v.push(0xd693e8c36676bd09u64);
        v.push(0x8c505634fae2e189u64);
        v.push(0xfbb36b00e1dcc40cu64);
        v.push(0xddd88d99a6f6a829u64);
        v.push(0x0026ba558ae9562au64);
        proof { assert(v@ =~= seq![0x0000000000000001u64, 0x452217cc90000000u64, 0xa0f3622fba094800u64, 0xd693e8c36676bd09u64, 0x8c505634fae2e189u64, 0xfbb36b00e1dcc40cu64, 0xddd88d99a6f6a829u64, 0x0026ba558ae9562au64]); }
        v
    }

    /// COFACTOR_INV = COFACTOR^{-1} mod r
    /// = 6764900296503390671038341982857278410319949526107311149686707033187604810669,
    /// as little-endian limbs over the scalar field.
    pub fn cofactor_inv() -> (r: Vec<u64>)
        ensures
            r@ == seq![0x8bb073fa57b0cbadu64, 0x7e2625834dca4110u64, 0x06619857527114ffu64, 0x0ef4cc41e2c22cc3u64],
    {
        let mut v: Vec<u64> = Vec::new();
        v.push(0x8bb073fa57b0cbadu64);
        v.push(0x7e2625834dca4110u64);
        v.push(0x06619857527114ffu64);
        v.push(0x0ef4cc41e2c22cc3u64);
        proof { assert(v@ =~= seq![0x8bb073fa57b0cbadu64, 0x7e2625834dca4110u64, 0x06619857527114ffu64, 0x0ef4cc41e2c22cc3u64]); }
        v
    }

    /// The Weierstrass coefficient `A` of this curve.
    pub fn coeff_a() -> (r: Fq2Repr)
        ensures
            r.v() == (0x152964189f4c623685ae0423eb10294ce6458c064f093208504005b37d04d5d336dc9d66a97093f84d62e778f8c82beint, 0x735c455387ab435839e5a5dbc1a30510070300f4becac797642fe56985064e95f7d6521a1a6e71004047f835c1f957int),
    {
        Fq2Repr { c0: [0x84d62e778f8c82be, 0x336dc9d66a97093f, 0x8504005b37d04d5d, 0xce6458c064f09320, 0x685ae0423eb10294, 0x0152964189f4c623], c1: [0x004047f835c1f957, 0x95f7d6521a1a6e71, 0x97642fe56985064e, 0x10070300f4becac7, 0x5839e5a5dbc1a305, 0x00735c455387ab43] }
    }

    /// The Weierstrass coefficient `B` of this curve.
    pub fn coeff_b() -> (r: Fq2Repr)
        ensures
            r.v() == (0x19e38372e0d4bf401d2fa5f2261e1e3fc95d51a3857fc23b1385d51ea9c973a89c22148a93dff96447700bf1c3aebacint, 0x1579ddb5c1c595b7c08c3a3cef5626143c25757c6b67d0a2677b22fc0c890d8b2b1a17895d047a98c49047069f725int),
    {
        Fq2Repr { c0: [0x447700bf1c3aebac, 0x89c22148a93dff96, 0xb1385d51ea9c973a, 0xfc95d51a3857fc23, 0x01d2fa5f2261e1e3, 0x019e38372e0d4bf4], c1: [0xa98c49047069f725, 0xd8b2b1a17895d047, 0x0a2677b22fc0c890, 0x6143c25757c6b67d, 0x5b7c08c3a3cef562, 0x0001579ddb5c1c59] }
    }

    /// The x-coordinate of the designated generator.
    pub fn generator_x() -> (r: Fq2Repr)
        ensures
            r.v() == (0x49f7e785eb0349f85093ab977d9c6adcf3385006b5200a46d904d62147f7b1cf3cbd0f160918fa917f018735c178a7int, 0xfd2a5ec1e00abe254f01bafce56f010808c28a417b2ec2f7db39cef06e1949b46fdc89e6fa1f18c9c77d7056f7eb99int),
    {
        Fq2Repr { c0: [0x917f018735c178a7, 0xcf3cbd0f160918fa, 0x46d904d62147f7b1, 0xdcf3385006b5200a, 0xf85093ab977d9c6a, 0x0049f7e785eb0349], c1: [0xc9c77d7056f7eb99, 0xb46fdc89e6fa1f18, 0xf7db39cef06e1949, 0x0808c28a417b2ec2, 0x254f01bafce56f01, 0x00fd2a5ec1e00abe] }
    }

    /// The y-coordinate of the designated generator.
    pub fn generator_y() -> (r: Fq2Repr)
        ensures
            r.v() == (0xbf9e8b73454bf3354cc62fcd95376fd65a1bf1ea0f1d85c4f688dd014f2255d18e5140e8e6dbee8921f950dafe2447int, 0x13e4ff71442cf246f6a8f971b065ae76ca1dbfd08f96e140ce0d98a235dd8d0c39191bd43760876f7f361f8786c23baint),
    {
        Fq2Repr { c0: [0x8921f950dafe2447, 0xd18e5140e8e6dbee, 0xc4f688dd014f2255, 0xd65a1bf1ea0f1d85, 0x354cc62fcd95376f, 0x00bf9e8b73454bf3], c1: [0xf7f361f8786c23ba, 0xc39191bd43760876, 0x0ce0d98a235dd8d0, 0x6ca1dbfd08f96e14, 0x6f6a8f971b065ae7, 0x013e4ff71442cf24] }
    }

    /// A primitive element of the extension field, used by the hash-to-field step of the pipeline this curve serves.
    pub fn zeta() -> (r: Fq2Repr)
        ensures
            r.v() == (0xcint, 0x1int),
    {
        Fq2Repr { c0: [0x000000000000000c, 0x0000000000000000, 0x0000000000000000, 0x0000000000000000, 0x0000000000000000, 0x0000000000000000], c1: [0x0000000000000001, 0x0000000000000000, 0x0000000000000000, 0x0000000000000000, 0x0000000000000000, 0x0000000000000000] }
    }
}

} // verus!
