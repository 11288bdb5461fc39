//! The parameter set of the BLS12-381 G1 curve: Weierstrass coefficients,
//! generator, cofactor data, endomorphism constant, seed, and the
//! descriptor of the eleven-degree isogeny from its auxiliary curve.
//!
//! These tables come from offline mathematical derivation and are consumed
//! as immutable data by the two core algorithms.

use crate::field::Fp;
use crate::isogeny::IsogenyMap;
use crate::point::Point;
use crate::subgroup::is_in_prime_order_subgroup;
use crate::subgroup::subgroup_model;
use vstd::prelude::*;

verus! {

/// The cubic root of unity in the base field that drives the curve's
/// efficient endomorphism.
pub open spec fn beta_v() -> int {
    793479390729215512621379701633421447060886740281060493010456487427281649075476305620758731620350int
}

/// The parameter set of the BLS12-381 G1 curve, `y^2 = x^3 + 4`.
#[derive(Clone, Copy, Debug, Default, PartialEq, Eq)]
pub struct Parameters;

impl Parameters {
    /// The Weierstrass coefficient `A = 0`.
    pub fn coeff_a() -> (r: Fp)
        ensures
            r.wf(),
            r.v() == 0,
    {
        Fp::from_u64(0)
    }

    /// The Weierstrass coefficient `B = 4`.
    pub fn coeff_b() -> (r: Fp)
        ensures
            r.wf(),
            r.v() == 4,
    {
        Fp::from_u64(4)
    }

    /// The designated generator of the prime-order subgroup; it satisfies
    /// the curve equation `y^2 = x^3 + 4`.
    pub fn generator() -> (r: Point)
        ensures
            r.wf(),
            crate::point::on_curve_model(r.model(), 0, 4),
            r.model() == (3685416753713387016781088315183077757961620795782546409894578378688607592378376318836054947676345821548104185464507int, 1339506544944476473020471379941921221584933875938349620426543736416511423956333506472724655353366534992391756441569int, false),
    {
        Point {
            x: Fp { limbs: [0xfb3af00adb22c6bb, 0x6c55e83ff97a1aef, 0xa14e3a3f171bac58, 0xc3688c4f9774b905, 0x2695638c4fa9ac0f, 0x17f1d3a73197d794] },
            y: Fp { limbs: [0x0caa232946c5e7e1, 0xd03cc744a2888ae4, 0x00db18cb2c04b3ed, 0xfcf5e095d5d00af6, 0xa09e30ed741d8ae4, 0x08b3f481e3aaa0f1] },
            infinity: false,
        }
    }

    /// The endomorphism constant: a non-trivial cubic root of unity in the
    /// base field; the endomorphism maps `(x, y)` to `(beta * x, y)`.
    pub fn beta() -> (r: Fp)
        ensures
            r.wf(),
            r.v() == beta_v(),
            beta_v() != 1,
            ((beta_v() * beta_v()) % crate::field::q381()) * beta_v() % crate::field::q381()
                == 1,
    {
        Fp { limbs: [0x2e01fffffffefffe, 0xde17d813620a0002, 0xddb3a93be6f89688, 0xba69c6076a0f77ea, 0x5f19672fdf76ce51, 0x0000000000000000] }
    }

    /// The curve's seed parameter, as a little-endian limb scalar: the
    /// scalar the subgroup test multiplies by, far smaller than the
    /// subgroup order.
    pub fn seed() -> (r: Vec<u64>)
        ensures
            r@ == seq![0xd201000000010000u64],
    {
        let mut v: Vec<u64> = Vec::new();
        v.push(0xd201000000010000u64);
        proof { assert(v@ =~= seq![0xd201000000010000u64]); }
        v
    }

    /// COFACTOR = (x - 1)^2 / 3 = 76329603384216526031706109802092473003,
    /// as little-endian limbs.
    pub fn cofactor() -> (r: Vec<u64>)
        ensures
            r@ == seq![0x8c00aaab0000aaabu64, 0x396c8c005555e156u64],
    {
        let mut v: Vec<u64> = Vec::new();
        v.push(0x8c00aaab0000aaabu64);
        v.push(0x396c8c005555e156u64);
        proof { assert(v@ =~= seq![0x8c00aaab0000aaabu64, 0x396c8c005555e156u64]); }
        v
    }

    /// COFACTOR_INV = COFACTOR^{-1} mod r
    /// = 52435875175126190458656871551744051925719901746859129887267498875565241663483,
    /// as little-endian limbs over the scalar field.
    pub fn cofactor_inv() -> (r: Vec<u64>)
        ensures
            r@ == seq![0xec0000020005fffbu64, 0xd07c8ff73bf14809u64, 0xe34f0b31458fbb21u64, 0x73eda753299d7d44u64],
    {
        let mut v: Vec<u64> = Vec::new();
        v.push(0xec0000020005fffbu64);
        v.push(0xd07c8ff73bf14809u64);
        v.push(0xe34f0b31458fbb21u64);
        v.push(0x73eda753299d7d44u64);
        proof { assert(v@ =~= seq![0xec0000020005fffbu64, 0xd07c8ff73bf14809u64, 0xe34f0b31458fbb21u64, 0x73eda753299d7d44u64]); }
        v
    }

    /// Multiplies a base-field element by the coefficient `A = 0`.
    pub fn mul_by_a(_elem: &Fp) -> (r: Fp)
        ensures
            r.wf(),
            r.v() == 0,
    {
        Fp::from_u64(0)
    }

    /// Decides subgroup membership of a point already known to lie on the
    /// curve, through the endomorphism-accelerated test with this curve's
    /// endomorphism constant and seed.
    pub fn is_in_correct_subgroup_assuming_on_curve(p: &Point) -> (r: bool)
        requires
            p.wf(),
        ensures
            r == subgroup_model(p.model(), beta_v(), seq![0xd201000000010000u64]),
    {
        let beta = Self::beta();
        let seed = Self::seed();
        is_in_prime_order_subgroup(p, &beta, &seed)
    }

    /// The isogeny map descriptor for this curve: the four coefficient
    /// sequences (constant term first) of the rational maps that carry a
    /// point of the auxiliary curve onto this curve.
    pub fn isogeny_map() -> (r: IsogenyMap)
        ensures
            r.wf(),
            r.x_num@.len() == 12,
            r.x_den@.len() == 11,
            r.y_num@.len() == 16,
            r.y_den@.len() == 16,
            r.x_num@[0].v() == 0x1870e8f8b3e2d43726fd98804755076c11e66a0a8fcf16de5414b0049070ed6cde9239a20d1f72a08e1c1e2127cd8c68int,
            r.x_num@[1].v() == 0xa4792e7beac382dac98dd9e3106dbcd8ac6f9f47e4869c32abf2526a4d1b1d10ed224a23f43f695394ac89fad4494e8int,
            r.x_num@[2].v() == 0xd54005db97678ec1d1048c5d10a9a1bce032473295983e56878e501ec68e25c958c3e3d2a09729fe0179f9dac9edcb0int,
            r.x_num@[3].v() == 0x65fc3ed3ad65f505f4fc085a251cabfa44a6d4494430ed039429348a9a91fefa4f480556462a3edc000e4b012f1fdeint,
            r.x_num@[4].v() == 0x941b95997c0bd99cfe0fb05829e08881ee33c9acedc2a7a99e8ed4a9608d9c16f8c17a616e033cf1e4b506ce8f9e70fint,
            r.x_num@[5].v() == 0x1630c3250d7313ff01d1201bf7a74ab5db3cb17dd952799b9ed3ab9097e68f90a0870d2dcae73d19cd13c1c66f652983int,
            r.x_num@[6].v() == 0x19ccdce9f33b9153d45a12a832d94d78862b09f3be26df9cc27d650e03c18290a8ae89e6f62afda63cae61b54495043int,
            r.x_num@[7].v() == 0xff8639968e83c4a83b45c56be3d4b709131f621235083dacd203692b2142313666bc7d70f9682d657ceb2218c07be64int,
            r.x_num@[8].v() == 0x80d3cf1f9a78fc47b90b33563be990dc43b756ce79f5574a2c596c928c5d1de4fa295f296b74e956d71986a8497e317int,
            r.x_num@[9].v() == 0x4899e726b2ee94bcd5f011202ee5ec90cc75f860df0365a9c56af2b359dedf9ca7fa60e78c834e3c27de18085f26d8eint,
            r.x_num@[10].v() == 0x11e90d8861f5ccef3379fd95b4b2120734e23b2275c92cb2bb9322a6c5b9224652c2e4d606ccdb14b98dbff3a3e606c0int,
            r.x_num@[11].v() == 0x6e08c248e260e70bd1e962381edee3d31d79d7e22c837bc23c0bf1bc24c6b68c24b1b80b64d391fa9c8ba2e8ba2d229int,
            r.x_den@[0].v() == 0x19a8f720a0b4a4505520523b5bbf7f4891d5228d32a529ddc58003abc5ddb3155d8ab0658126a80c8550bce6e5995dd5int,
            r.x_den@[1].v() == 0x12561a5deb559c4348b4711298e536367041e8ca0cf0800c0126c2588c48bf5713daa8846cb026e9e5c8276ec82b3bffint,
            r.x_den@[2].v() == 0x3f7829d8e77f92fb79c958e00f9b9721a1eea152ef3d0d8b21a0f1e5d8ac987ced32b2a478beb8db629293c293946e9int,
            r.x_den@[3].v() == 0xfd940ad86b5b2cc67de9c769cb1a62b17aba358d6136423dd109bc506db485847946ee9c93b584211324fec4ad9a773int,
            r.x_den@[4].v() == 0x13a8e162022914a80a6f1d5f43e7a07dffdfc759a12062bb8d6b44e833b306da9bd29ba81f35781d539d395b3532a21eint,
            r.x_den@[5].v() == 0x121c11de75310b53edff3357b45dc615b69fc89940aa4822b26fe1809433ad163c7aedd5bf440b7799088fc3e0b3fee1int,
            r.x_den@[6].v() == 0x183b152de0dc87d4018253d976de087b7975266c01791ec6bd7df51053d13780cabd93be9ee7ab1e33a5154dbfd9340dint,
            r.x_den@[7].v() == 0x14a7ac2a9d64a8b230b3f5b074cf01996e7f63c21bca68a81996e1cdf9822c580fa5b9489d11e2d311f7d99bbdcc5a5eint,
            r.x_den@[8].v() == 0x471e8a5298339ad60ce630b154bd3b46209561d10cd06d7962374d281d2c03a0835257b50ee3e6d2ca0b01c2139dd59int,
            r.x_den@[9].v() == 0x8ce9685a8b61908fab17baa96a17b926c40772eb7f10c6c33b716a3792165872c5a2995b8978ce26652ba2877d4db4fint,
            r.x_den@[10].v() == 0x1int,
            r.y_num@[0].v() == 0x90d97c81ba24ee0259d1f094980dcfa11ad138e48a869522b52af6c956543d3cd0c7aee9b3ba3c2be9845719707bb33int,
            r.y_num@[1].v() == 0x9d182ede4acdd9e52ffd40b36bc3f5ea9b89380ddedd37d30dcdc41484785b99d2db85202cf3cd8ee24700829dab38bint,
            r.y_num@[2].v() == 0x177bb5b5d53936a34484ed470d79d9aca071c2bd3e32351edc9b07c371666d69408da746ea6ac255b5ce6c1b5e6bc50dint,
            r.y_num@[3].v() == 0x1f86376e8981c217898751ad8746757d42aa7b90eeb791c09e4a3ec03251cf9de405aba9ec61deca6355c77b0e5f4cbint,
            r.y_num@[4].v() == 0x17d4fb1bd1322e29ad372a3fdd20af778832eda6e071fae272ba514e96de6c52ca1471a2ce59fee1984b8b87d75cbd7cint,
            r.y_num@[5].v() == 0x5c6e3a479bff2b682693932ff6fd4ef147079dc9c2c4bcd1f69408989d197327522fb52a460e529658e2f7615c19e73int,
            r.y_num@[6].v() == 0x4ab0b9bcfac1bbcb2c977d027796b3ce75bb8ca2be184cb5231413c4d634f3747a87ac2460f415ec961f8855fe9d6f2int,
            r.y_num@[7].v() == 0x16214f67acac1da59f39831f32201e1a5b5e41cbc8ca68a7412280651e80c5bf13cdc513c119578256182006287ea293int,
            r.y_num@[8].v() == 0x2271ffbeb6b0ba85d8a98ebcc4e5a50227e464b2484f521d08e027693ec98e8f41ad3771606360b07c8cdd7374af88aint,
            r.y_num@[9].v() == 0xe1bba7a1186bdb5223abde7ada14a23c42a0ca7915af6fe06985e7ed1e4d43b9b3f7055dd4eba6f2bafaaebca731c30int,
            r.y_num@[10].v() == 0xd98f40fbdeaa6e8f3434bceb2db075f12653eeeb6964b35cbb583ac562c734350ee0bb7dc264bdd0beecf1315eab2c6int,
            r.y_num@[11].v() == 0x19bdad15de7bff25c6d03d7783dab17b82b2f747a8c40deac439e2a034e4276aed6e7c5de68b697381ebada4b318335cint,
            r.y_num@[12].v() == 0xb182cac101b9399d155096004f53f447aa7b12a3426b08ec02710e807b4633f06c851c1919211f20d4c04f00b971ef8int,
            r.y_num@[13].v() == 0xcc87a09997370bcb4a978f6d94617f3e8ead3e86e42e404cd696eb1eb83779eeffa744af93361b0ecad2a2d05b290f1int,
            r.y_num@[14].v() == 0x12fd8d3eec217482ce1698f1208e41e7243c381f1f647ac0b8560ac2fdc40a094d597c4ae622d80e49d882e70ab66d87int,
            r.y_num@[15].v() == 0x15e6be4e990f03ce4ea50b3b42df2eb5cb181d8f84965a3957add4fa95af01b2b665027efec01c7704b456be69c8b604int,
            r.y_den@[0].v() == 0x16112c4c3a9c98b252181140fad0eae9601a6de578980be6eec3232b5be72e7a07f3688ef60c206d01479253b03663c1int,
            r.y_den@[1].v() == 0x19b3c63132cbd83d9232b881b8cb4237ddb414481dfa025cce221ba0af809719b3d5fe1e218a3c0c248326333ba795ceint,
            r.y_den@[2].v() == 0x143e67964f6b6cc15e97b78b813ef8eef7981ecdd63ce0538aac1b635f7fb456d4911d1f6b7565c1d5db1421d201f612int,
            r.y_den@[3].v() == 0x16b7d288798e5395f20d23bf89edb4d1d115c5dbddbcd30e123da489e726af41727364f2c28297ada8d26d98445f5416int,
            r.y_den@[4].v() == 0x18d0478a9243ad109ffbfd95900ea0b1bff8e4214542990379771d1ab0f12df7f097043b4f85b2b8e65e0a1b6bdf288dint,
            r.y_den@[5].v() == 0x18f02fd29d822df76c7bae804f6909e7ab175cac4fc6ccdd8e89b1399612a41131d50eccecae30ad3634c8a0a6c77580int,
            r.y_den@[6].v() == 0x166007c08a99db2fc3ba8734ace9824b5eecfdfa8d0cf8ef5dd365bc400a0051d5fa9c01a58b1fb93d1a1399126a775cint,
            r.y_den@[7].v() == 0x7ba7c44396ebd0631a4c8296ec1faa5f28e6aefe4359d2305c236bcb6e53529f34575070bba11fc78b0cc1953c68f7cint,
            r.y_den@[8].v() == 0xf02096fe49f9bcf15aef313350b18ee96c422350dce89495f83df8f3cd32dee371f3894edb5ef897570cfad483e7482int,
            r.y_den@[9].v() == 0x167a55cda70a6e1cea820597d94a84903216f763e13d87bb5308592e7ea7d4fbc7385ea3d529b35e346ef48bb8913f55int,
            r.y_den@[10].v() == 0x1954fd71ca1198e63b3ca9941fe8bc11d1d48168afdd673a2fc39b2a79c487a4e0b42ffa19e5c24040996d49cc88e71aint,
            r.y_den@[11].v() == 0xf79d8bbec0273e6afd6ae2ad677fb748a0d1db2434afa125384b05d9a630ee054fa1c9ec2fcbad5138eb58d0c13c420int,
            r.y_den@[12].v() == 0xad6b9514c767fe3c3613144b45f1496543346d98adf02267d5ceef9a00d9b8693000763e3b90ac11e99b138573345ccint,
            r.y_den@[13].v() == 0x61a3ec2b69f2771f44dd4508444c688be927226b3a3c04734447f3addc0a8f381c6fc9bdb5bacd0ddd42db7cea47ee7int,
            r.y_den@[14].v() == 0x3558d360513240527c65a4c04c62eff0250d039a27094299fa38a4ba599d38b3313e613c395353bc7c973cb3bf73a1int,
            r.y_den@[15].v() == 0x1int,
    {
        let mut x_num: Vec<Fp> = Vec::new();
        x_num.push(Fp { limbs: [0x8e1c1e2127cd8c68, 0xde9239a20d1f72a0, 0x5414b0049070ed6c, 0x11e66a0a8fcf16de, 0x26fd98804755076c, 0x1870e8f8b3e2d437] });
        x_num.push(Fp { limbs: [0x394ac89fad4494e8, 0x0ed224a23f43f695, 0x2abf2526a4d1b1d1, 0x8ac6f9f47e4869c3, 0xac98dd9e3106dbcd, 0x0a4792e7beac382d] });
        x_num.push(Fp { limbs: [0xe0179f9dac9edcb0, 0x958c3e3d2a09729f, 0x6878e501ec68e25c, 0xce032473295983e5, 0x1d1048c5d10a9a1b, 0x0d54005db97678ec] });
        x_num.push(Fp { limbs: [0xdc000e4b012f1fde, 0xfa4f480556462a3e, 0x039429348a9a91fe, 0xfa44a6d4494430ed, 0x05f4fc085a251cab, 0x0065fc3ed3ad65f5] });
        x_num.push(Fp { limbs: [0x1e4b506ce8f9e70f, 0x6f8c17a616e033cf, 0x99e8ed4a9608d9c1, 0x1ee33c9acedc2a7a, 0xcfe0fb05829e0888, 0x0941b95997c0bd99] });
        x_num.push(Fp { limbs: [0xcd13c1c66f652983, 0xa0870d2dcae73d19, 0x9ed3ab9097e68f90, 0xdb3cb17dd952799b, 0x01d1201bf7a74ab5, 0x1630c3250d7313ff] });
        x_num.push(Fp { limbs: [0x63cae61b54495043, 0x0a8ae89e6f62afda, 0xcc27d650e03c1829, 0x8862b09f3be26df9, 0x3d45a12a832d94d7, 0x019ccdce9f33b915] });
        x_num.push(Fp { limbs: [0x57ceb2218c07be64, 0x666bc7d70f9682d6, 0xcd203692b2142313, 0x9131f621235083da, 0x83b45c56be3d4b70, 0x0ff8639968e83c4a] });
        x_num.push(Fp { limbs: [0x6d71986a8497e317, 0x4fa295f296b74e95, 0xa2c596c928c5d1de, 0xc43b756ce79f5574, 0x7b90b33563be990d, 0x080d3cf1f9a78fc4] });
        x_num.push(Fp { limbs: [0xc27de18085f26d8e, 0xca7fa60e78c834e3, 0x9c56af2b359dedf9, 0x0cc75f860df0365a, 0xcd5f011202ee5ec9, 0x04899e726b2ee94b] });
        x_num.push(Fp { limbs: [0xb98dbff3a3e606c0, 0x52c2e4d606ccdb14, 0xbb9322a6c5b92246, 0x34e23b2275c92cb2, 0x3379fd95b4b21207, 0x11e90d8861f5ccef] });
        x_num.push(Fp { limbs: [0xa9c8ba2e8ba2d229, 0xc24b1b80b64d391f, 0x23c0bf1bc24c6b68, 0x31d79d7e22c837bc, 0xbd1e962381edee3d, 0x06e08c248e260e70] });
        let mut x_den: Vec<Fp> = Vec::new();
        x_den.push(Fp { limbs: [0x8550bce6e5995dd5, 0x5d8ab0658126a80c, 0xc58003abc5ddb315, 0x91d5228d32a529dd, 0x5520523b5bbf7f48, 0x19a8f720a0b4a450] });
        x_den.push(Fp { limbs: [0xe5c8276ec82b3bff, 0x13daa8846cb026e9, 0x0126c2588c48bf57, 0x7041e8ca0cf0800c, 0x48b4711298e53636, 0x12561a5deb559c43] });
        x_den.push(Fp { limbs: [0xb629293c293946e9, 0xced32b2a478beb8d, 0xb21a0f1e5d8ac987, 0x1a1eea152ef3d0d8, 0xb79c958e00f9b972, 0x03f7829d8e77f92f] });
        x_den.push(Fp { limbs: [0x11324fec4ad9a773, 0x47946ee9c93b5842, 0xdd109bc506db4858, 0x17aba358d6136423, 0x67de9c769cb1a62b, 0x0fd940ad86b5b2cc] });
        x_den.push(Fp { limbs: [0x539d395b3532a21e, 0x9bd29ba81f35781d, 0x8d6b44e833b306da, 0xffdfc759a12062bb, 0x0a6f1d5f43e7a07d, 0x13a8e162022914a8] });
        x_den.push(Fp { limbs: [0x99088fc3e0b3fee1, 0x3c7aedd5bf440b77, 0xb26fe1809433ad16, 0xb69fc89940aa4822, 0xedff3357b45dc615, 0x121c11de75310b53] });
        x_den.push(Fp { limbs: [0x33a5154dbfd9340d, 0xcabd93be9ee7ab1e, 0xbd7df51053d13780, 0x7975266c01791ec6, 0x018253d976de087b, 0x183b152de0dc87d4] });
        x_den.push(Fp { limbs: [0x11f7d99bbdcc5a5e, 0x0fa5b9489d11e2d3, 0x1996e1cdf9822c58, 0x6e7f63c21bca68a8, 0x30b3f5b074cf0199, 0x14a7ac2a9d64a8b2] });
        x_den.push(Fp { limbs: [0x2ca0b01c2139dd59, 0x0835257b50ee3e6d, 0x962374d281d2c03a, 0x6209561d10cd06d7, 0x60ce630b154bd3b4, 0x0471e8a5298339ad] });
        x_den.push(Fp { limbs: [0x6652ba2877d4db4f, 0x2c5a2995b8978ce2, 0x33b716a379216587, 0x6c40772eb7f10c6c, 0xfab17baa96a17b92, 0x08ce9685a8b61908] });
        x_den.push(Fp { limbs: [0x0000000000000001, 0x0000000000000000, 0x0000000000000000, 0x0000000000000000, 0x0000000000000000, 0x0000000000000000] });
        let mut y_num: Vec<Fp> = Vec::new();
        y_num.push(Fp { limbs: [0xbe9845719707bb33, 0xcd0c7aee9b3ba3c2, 0x2b52af6c956543d3, 0x11ad138e48a86952, 0x259d1f094980dcfa, 0x090d97c81ba24ee0] });
        y_num.push(Fp { limbs: [0xee24700829dab38b, 0x9d2db85202cf3cd8, 0x30dcdc41484785b9, 0xa9b89380ddedd37d, 0x52ffd40b36bc3f5e, 0x09d182ede4acdd9e] });
        y_num.push(Fp { limbs: [0xb5ce6c1b5e6bc50d, 0x408da746ea6ac255, 0xdc9b07c371666d69, 0xa071c2bd3e32351e, 0x4484ed470d79d9ac, 0x177bb5b5d53936a3] });
        y_num.push(Fp { limbs: [0xa6355c77b0e5f4cb, 0xde405aba9ec61dec, 0x09e4a3ec03251cf9, 0xd42aa7b90eeb791c, 0x7898751ad8746757, 0x01f86376e8981c21] });
        y_num.push(Fp { limbs: [0x984b8b87d75cbd7c, 0xca1471a2ce59fee1, 0x72ba514e96de6c52, 0x8832eda6e071fae2, 0xad372a3fdd20af77, 0x17d4fb1bd1322e29] });
        y_num.push(Fp { limbs: [0x658e2f7615c19e73, 0x7522fb52a460e529, 0x1f69408989d19732, 0x147079dc9c2c4bcd, 0x82693932ff6fd4ef, 0x05c6e3a479bff2b6] });
        y_num.push(Fp { limbs: [0xc961f8855fe9d6f2, 0x47a87ac2460f415e, 0x5231413c4d634f37, 0xe75bb8ca2be184cb, 0xb2c977d027796b3c, 0x04ab0b9bcfac1bbc] });
        y_num.push(Fp { limbs: [0x56182006287ea293, 0x13cdc513c1195782, 0x412280651e80c5bf, 0x5b5e41cbc8ca68a7, 0x9f39831f32201e1a, 0x16214f67acac1da5] });
        y_num.push(Fp { limbs: [0x07c8cdd7374af88a, 0xf41ad3771606360b, 0xd08e027693ec98e8, 0x227e464b2484f521, 0x5d8a98ebcc4e5a50, 0x02271ffbeb6b0ba8] });
        y_num.push(Fp { limbs: [0x2bafaaebca731c30, 0x9b3f7055dd4eba6f, 0x06985e7ed1e4d43b, 0xc42a0ca7915af6fe, 0x223abde7ada14a23, 0x0e1bba7a1186bdb5] });
        y_num.push(Fp { limbs: [0x0beecf1315eab2c6, 0x50ee0bb7dc264bdd, 0xcbb583ac562c7343, 0x12653eeeb6964b35, 0xf3434bceb2db075f, 0x0d98f40fbdeaa6e8] });
        y_num.push(Fp { limbs: [0x81ebada4b318335c, 0xed6e7c5de68b6973, 0xc439e2a034e4276a, 0x82b2f747a8c40dea, 0xc6d03d7783dab17b, 0x19bdad15de7bff25] });
        y_num.push(Fp { limbs: [0x0d4c04f00b971ef8, 0x06c851c1919211f2, 0xc02710e807b4633f, 0x7aa7b12a3426b08e, 0xd155096004f53f44, 0x0b182cac101b9399] });
        y_num.push(Fp { limbs: [0xecad2a2d05b290f1, 0xeffa744af93361b0, 0xcd696eb1eb83779e, 0xe8ead3e86e42e404, 0xb4a978f6d94617f3, 0x0cc87a09997370bc] });
        y_num.push(Fp { limbs: [0x49d882e70ab66d87, 0x4d597c4ae622d80e, 0xb8560ac2fdc40a09, 0x243c381f1f647ac0, 0xce1698f1208e41e7, 0x12fd8d3eec217482] });
        y_num.push(Fp { limbs: [0x04b456be69c8b604, 0xb665027efec01c77, 0x57add4fa95af01b2, 0xcb181d8f84965a39, 0x4ea50b3b42df2eb5, 0x15e6be4e990f03ce] });
        let mut y_den: Vec<Fp> = Vec::new();
        y_den.push(Fp { limbs: [0x01479253b03663c1, 0x07f3688ef60c206d, 0xeec3232b5be72e7a, 0x601a6de578980be6, 0x52181140fad0eae9, 0x16112c4c3a9c98b2] });
        y_den.push(Fp { limbs: [0x248326333ba795ce, 0xb3d5fe1e218a3c0c, 0xce221ba0af809719, 0xddb414481dfa025c, 0x9232b881b8cb4237, 0x19b3c63132cbd83d] });
        y_den.push(Fp { limbs: [0xd5db1421d201f612, 0xd4911d1f6b7565c1, 0x8aac1b635f7fb456, 0xf7981ecdd63ce053, 0x5e97b78b813ef8ee, 0x143e67964f6b6cc1] });
        y_den.push(Fp { limbs: [0xa8d26d98445f5416, 0x727364f2c28297ad, 0x123da489e726af41, 0xd115c5dbddbcd30e, 0xf20d23bf89edb4d1, 0x16b7d288798e5395] });
        y_den.push(Fp { limbs: [0xe65e0a1b6bdf288d, 0xf097043b4f85b2b8, 0x79771d1ab0f12df7, 0xbff8e42145429903, 0x9ffbfd95900ea0b1, 0x18d0478a9243ad10] });
        y_den.push(Fp { limbs: [0x3634c8a0a6c77580, 0x31d50eccecae30ad, 0x8e89b1399612a411, 0xab175cac4fc6ccdd, 0x6c7bae804f6909e7, 0x18f02fd29d822df7] });
        y_den.push(Fp { limbs: [0x3d1a1399126a775c, 0xd5fa9c01a58b1fb9, 0x5dd365bc400a0051, 0x5eecfdfa8d0cf8ef, 0xc3ba8734ace9824b, 0x166007c08a99db2f] });
        y_den.push(Fp { limbs: [0x78b0cc1953c68f7c, 0xf34575070bba11fc, 0x05c236bcb6e53529, 0xf28e6aefe4359d23, 0x31a4c8296ec1faa5, 0x07ba7c44396ebd06] });
        y_den.push(Fp { limbs: [0x7570cfad483e7482, 0x371f3894edb5ef89, 0x5f83df8f3cd32dee, 0x96c422350dce8949, 0x15aef313350b18ee, 0x0f02096fe49f9bcf] });
        y_den.push(Fp { limbs: [0x346ef48bb8913f55, 0xc7385ea3d529b35e, 0x5308592e7ea7d4fb, 0x3216f763e13d87bb, 0xea820597d94a8490, 0x167a55cda70a6e1c] });
        y_den.push(Fp { limbs: [0x40996d49cc88e71a, 0xe0b42ffa19e5c240, 0x2fc39b2a79c487a4, 0xd1d48168afdd673a, 0x3b3ca9941fe8bc11, 0x1954fd71ca1198e6] });
        y_den.push(Fp { limbs: [0x138eb58d0c13c420, 0x54fa1c9ec2fcbad5, 0x5384b05d9a630ee0, 0x8a0d1db2434afa12, 0xafd6ae2ad677fb74, 0x0f79d8bbec0273e6] });
        y_den.push(Fp { limbs: [0x1e99b138573345cc, 0x93000763e3b90ac1, 0x7d5ceef9a00d9b86, 0x543346d98adf0226, 0xc3613144b45f1496, 0x0ad6b9514c767fe3] });
        y_den.push(Fp { limbs: [0xddd42db7cea47ee7, 0x81c6fc9bdb5bacd0, 0x34447f3addc0a8f3, 0xbe927226b3a3c047, 0xf44dd4508444c688, 0x061a3ec2b69f2771] });
        y_den.push(Fp { limbs: [0xbc7c973cb3bf73a1, 0xb3313e613c395353, 0x99fa38a4ba599d38, 0xf0250d039a270942, 0x527c65a4c04c62ef, 0x003558d360513240] });
        y_den.push(Fp { limbs: [0x0000000000000001, 0x0000000000000000, 0x0000000000000000, 0x0000000000000000, 0x0000000000000000, 0x0000000000000000] });
        IsogenyMap { x_num, x_den, y_num, y_den }
    }
}

/// The efficient endomorphism of the curve: maps `(x, y)` to
/// `(beta * x, y)`, where `beta` is the curve's non-trivial cubic root of
/// unity in the base field.
pub fn endomorphism(p: &Point) -> (r: Point)
    requires
        p.wf(),
    ensures
        r.wf(),
        r.model() == crate::subgroup::endo_model(beta_v(), p.model()),
{
    crate::subgroup::apply_endomorphism(p, &Parameters::beta())
}

} // verus!
