//! End-to-end tests of the isogeny map evaluator and the subgroup test on
//! the BLS12-381 G1 parameter set, with externally cross-checked vectors.

use curve_core::field::Fp;
use curve_core::isogeny::IsogenyMap;
use curve_core::isogeny::MapSingularity;
use curve_core::isogeny::map_via_isogeny;
use curve_core::params::Parameters;
use curve_core::params::endomorphism;
use curve_core::point::Point;
use curve_core::point::is_on_curve;
use curve_core::point::point_eq;
use curve_core::point::scalar_mul;
use curve_core::subgroup::is_in_prime_order_subgroup;
use curve_core::swu_iso::SwuIsoParameters;

fn fp(l: [u64; 6]) -> Fp {
    Fp::from_limbs(l)
}

/// A point on the auxiliary (isogenous) curve, found offline, with the
/// image a computer-algebra cross-check assigns to it under the map.
fn source_point() -> Point {
    Point::new(fp([0x0000000000000002, 0x0000000000000000, 0x0000000000000000, 0x0000000000000000, 0x0000000000000000, 0x0000000000000000]), fp([0xa0835c0688e2b7b8, 0xb49622eb2488489b, 0x8c2d918d820dea6a, 0x803ae0ea0c49bd5b, 0x671aa822c3bc1ae4, 0x0cdc1736f3d7675c]))
}

#[test]
fn map_sends_infinity_to_infinity() {
    let desc = Parameters::isogeny_map();
    let out = map_via_isogeny(&Point::infinity(), &desc).unwrap();
    assert!(out.infinity);
}

#[test]
fn map_matches_cross_checked_vector() {
    let desc = Parameters::isogeny_map();
    let out = map_via_isogeny(&source_point(), &desc).unwrap();
    assert_eq!(out, Point::new(fp([0xc9198b5cf11f1cfb, 0x1cbd286513f53923, 0xfe7c35d5deba115c, 0x83c5731c6377bb85, 0x986d433eeb7ccf4f, 0x0c5dd7028f4cf95d]), fp([0xae7f5c66df2b56ac, 0xd94b677a2ae0fc23, 0x68a128b2372830a1, 0xca7f99a633e09f22, 0x400e7e64d69c3ae6, 0x0ed893091d25771b])));
}

#[test]
fn map_lands_on_target_curve() {
    let desc = Parameters::isogeny_map();
    let out = map_via_isogeny(&source_point(), &desc).unwrap();
    assert!(is_on_curve(&out, &Parameters::coeff_a(), &Parameters::coeff_b()));
}

#[test]
fn map_reports_singularity_on_vanishing_denominator() {
    // x_den = (q - 2) + x vanishes at the source point's x = 2.
    let desc = IsogenyMap {
        x_num: vec![Fp::one()],
        x_den: vec![fp([0xb9feffffffffaaa9, 0x1eabfffeb153ffff, 0x6730d2a0f6b0f624, 0x64774b84f38512bf, 0x4b1ba7b6434bacd7, 0x1a0111ea397fe69a]), Fp::one()],
        y_num: vec![Fp::one()],
        y_den: vec![Fp::one()],
    };
    assert_eq!(map_via_isogeny(&source_point(), &desc), Err(MapSingularity));
}

#[test]
fn generator_is_on_curve_and_in_subgroup() {
    let g = Parameters::generator();
    assert!(is_on_curve(&g, &Parameters::coeff_a(), &Parameters::coeff_b()));
    assert!(Parameters::is_in_correct_subgroup_assuming_on_curve(&g));
}

#[test]
fn small_multiples_of_generator_pass_subgroup_test() {
    let g = Parameters::generator();
    let g2 = scalar_mul(&g, &vec![2]);
    assert_eq!(g2, Point::new(fp([0xc39a8c5529bf0f4e, 0xe28f75bb8f1c7c42, 0x43902d0ac358a62a, 0x9721db3091280125, 0x8808c8eb50a9450c, 0x0572cbea904d6746]), fp([0xba86881979749d28, 0x4c56d9d4cd16bd1b, 0xf73bb9021d5fd76a, 0x22ba3ecb8670e461, 0x22fda673779d8e38, 0x166a9d8cabc673a3])));
    assert!(Parameters::is_in_correct_subgroup_assuming_on_curve(&g2));
    let g5 = scalar_mul(&g, &vec![5]);
    assert_eq!(g5, Point::new(fp([0xa575af0f18fb13dc, 0xa91a8c46e59a00dc, 0x36d8636b5fcc5ac7, 0x3cdc98ff707965e5, 0x4159aa33a98622da, 0x10e7791fb972fe01]), fp([0xfbf0bcd70d67c6e2, 0xbc40b4578b85cbaf, 0x3cd2501832ab5c4a, 0xb6b01cc6681e8a4c, 0x30c10512367494bf, 0x16ba437edcc6551e])));
    assert!(Parameters::is_in_correct_subgroup_assuming_on_curve(&g5));
}

#[test]
fn curve_point_outside_subgroup_is_rejected() {
    let p = Point::new(fp([0x0000000000000004, 0x0000000000000000, 0x0000000000000000, 0x0000000000000000, 0x0000000000000000, 0x0000000000000000]), fp([0x5ea93e354abe706c, 0x6346b8ed00e1de5d, 0xda9dd85e92848344, 0xc760f988c9926b26, 0xb33cffc3f3763e9b, 0x0a989badd40d6212]));
    assert!(is_on_curve(&p, &Parameters::coeff_a(), &Parameters::coeff_b()));
    assert!(!Parameters::is_in_correct_subgroup_assuming_on_curve(&p));
}

#[test]
fn early_out_rejects_fixed_point_of_seed_multiplication() {
    // With the curve group's order n, the scalar n + 1 fixes every point,
    // so the generator is a finite fixed point of the seed multiplication
    // and must be rejected by the filter alone.
    let seed_n_plus_1: Vec<u64> = vec![0x8c0000000000aaac, 0x1eabfffeb1540000, 0x6730d2a0f6b0f624, 0x64774b84f38512bf, 0x4b1ba7b6434bacd7, 0x1a0111ea397fe69a];
    let g = Parameters::generator();
    let fixed = scalar_mul(&g, &seed_n_plus_1);
    assert!(point_eq(&fixed, &g));
    assert!(!is_in_prime_order_subgroup(&g, &Parameters::beta(), &seed_n_plus_1));
}

#[test]
fn both_operations_are_deterministic() {
    let desc = Parameters::isogeny_map();
    let p = source_point();
    assert_eq!(map_via_isogeny(&p, &desc), map_via_isogeny(&p, &desc));
    let g = Parameters::generator();
    assert_eq!(
        Parameters::is_in_correct_subgroup_assuming_on_curve(&g),
        Parameters::is_in_correct_subgroup_assuming_on_curve(&g)
    );
}

#[test]
fn endomorphism_scales_x_by_beta() {
    let g = Parameters::generator();
    let e = endomorphism(&g);
    assert_eq!(e, Point::new(fp([0x24e473fe0a1d7620, 0x74f1161d8c99bcf0, 0x6ed984de104bb926, 0xa8728dd7cb4edb63, 0x49e404c01b2e0d26, 0x1333c91030ee7a46]), g.y));
    assert!(!e.infinity);
}

#[test]
fn scalar_multiple_of_infinity_stays_at_infinity() {
    let inf = Point::infinity();
    let out = scalar_mul(&inf, &vec![5]);
    assert!(out.infinity);
}

#[test]
fn mul_by_a_is_zero() {
    let z = Parameters::mul_by_a(&Parameters::beta());
    assert_eq!(z, Fp::from_u64(0));
}

#[test]
fn parameter_tables_match_published_data() {
    assert_eq!(Parameters::cofactor(), vec![0x8c00aaab0000aaab, 0x396c8c005555e156]);
    assert_eq!(Parameters::isogeny_map().x_num.len(), 12);
    assert_eq!(Parameters::isogeny_map().x_den.len(), 11);
    assert_eq!(Parameters::isogeny_map().y_num.len(), 16);
    assert_eq!(Parameters::isogeny_map().y_den.len(), 16);
    let zeta = SwuIsoParameters::zeta();
    assert_eq!(zeta.c0, [12, 0, 0, 0, 0, 0]);
    assert_eq!(zeta.c1, [1, 0, 0, 0, 0, 0]);
    assert_eq!(SwuIsoParameters::cofactor().len(), 8);
    assert_eq!(SwuIsoParameters::cofactor()[0], 0x0000000000000001);
    assert_eq!(SwuIsoParameters::cofactor()[7], 0x26ba558ae9562a);
}
