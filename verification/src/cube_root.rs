//! Cube roots in the target field, by the Tonelli-Shanks method for cubic
//! residues.
//!
//! The multiplicative group of the target field has order `p^12 - 1 = 27 t`
//! with `t = 3 l + 1` prime to three. The power `l` of a cube is a cube root
//! of its inverse up to an element of the subgroup of order 27; two rounds,
//! each telling three cases apart, find the correction in that subgroup.
use crate::fp::Fp;
use crate::fp12::{fp12_mul, fp12_one, fp12_pow, fp12_square, Fp12, Fp12Val};
use crate::fp2::{Fp2, Fp2Val, fp2_zero};
use crate::fp6::{Fp6, Fp6Val, fp6_zero};
use crate::limbs::value6;
use crate::montgomery::{modulus, radix};
use vstd::prelude::*;

verus! {

/// The exponent `l`, in chunks of six limbs, the lowest chunk first.
pub const EXPONENT: [[u64; 6]; 12] = [
    [
        0x891e_e790_4387_c565,
        0x8108_8460_003e_8ff4,
        0xb715_ff4f_3a60_4002,
        0x3d62_da9b_4efc_f75b,
        0x6402_fce9_a27f_b13f,
        0x587c_ca9c_370f_57bb,
    ],
    [
        0xf578_3a72_ddc2_502c,
        0x4a97_25bc_b1bf_5f23,
        0xadaa_fb48_31fc_813f,
        0xb310_27aa_dc0b_8760,
        0xc32e_8938_13c1_4144,
        0x422f_a109_1973_c0f0,
    ],
    [
        0xafa6_5cb4_522d_fd52,
        0x460b_31fc_7337_0af2,
        0x9f79_59c2_58aa_8c0e,
        0x1923_607c_3262_e761,
        0x26fc_9ce8_4e3e_6be0,
        0xf5df_631a_e0ca_25d6,
    ],
    [
        0xf253_4545_d30d_d1ec,
        0x7102_5854_d003_a4aa,
        0x0046_6fdc_0514_276d,
        0x3e84_781c_f8bb_baeb,
        0x362c_155e_27e7_16a6,
        0x079a_3b37_a5b9_f2fc,
    ],
    [
        0xdcd4_d9fc_5f39_c39d,
        0x6b1f_7214_7368_0bda,
        0x8ba2_1718_ab48_5139,
        0x31cf_3bd9_c0e5_f16e,
        0xb9d3_80b8_29ae_90df,
        0x4e33_aa8a_5bb3_96d0,
    ],
    [
        0x6734_b136_11d3_1c67,
        0x129e_d238_222d_5645,
        0x9487_2bf7_80e9_2e78,
        0x3ca4_287b_da10_9a5b,
        0x0d08_3525_1dc7_eac4,
        0x1b4e_ecc4_a7af_cd4b,
    ],
    [
        0x00f5_306a_f815_ceda,
        0x18c6_abd3_8ce2_7143,
        0x62d4_f0b8_eb29_f246,
        0x7813_b4e1_6674_2367,
        0x7748_4246_fd9d_a64a,
        0xff19_033b_4b70_33ac,
    ],
    [
        0xfcd5_a9d9_7580_e2c5,
        0xbd88_8a45_1966_3202,
        0xeedc_c4e6_38d4_5c77,
        0xd1e9_ecf0_5923_0468,
        0x107d_6409_2bc5_e8e4,
        0xfd2c_decb_11ef_3fcd,
    ],
    [
        0x1b70_531f_4dd3_227a,
        0x312d_e1ce_d8d2_b3ec,
        0x762c_d1b5_c719_2987,
        0x3fe6_012c_3374_ceee,
        0xebcd_6fd0_85df_4f4f,
        0xc14c_c211_d608_d3e8,
    ],
    [
        0x265e_db05_8bb2_73db,
        0x68d0_5d88_302c_654e,
        0x5c85_6b7b_ecc4_e477,
        0x2685_a86e_eb09_1fad,
        0x0a9e_ee4b_5606_bec1,
        0xc260_4366_cc70_da60,
    ],
    [
        0xe472_fecc_c72f_f85b,
        0x4e3a_4fc1_7c7f_c443,
        0xb0b1_bc64_bcfd_30c5,
        0xa2f8_58a7_943d_8c22,
        0x0db3_3141_c4e4_bc81,
        0xbf7a_e04b_4634_b8e4,
    ],
    [
        0x45c8_aa2c_865c_4b48,
        0x994d_5029_9807_536a,
        0xab62_ad4b_c648_b6f3,
        0xf8ba_5202_9cab_15c5,
        0x9c67_0b1a_b47e_b790,
        0x0000_0000_0004_3193,
    ],
];

/// The limbs of the residue `c` in `c (1 + u)`, the power `l` of `1 + u`.
pub const WITNESS_LIMBS: [u64; 6] = [
    0xfed9_6e3d_ecf1_95cc,
    0xe79a_7c33_25f1_4b08,
    0x7f9f_65cf_9655_1f4c,
    0x0500_8488_01b1_1679,
    0x345c_fe64_8f0f_3931,
    0x0da5_ab80_8c2e_3e46,
];

/// The exponent `l = (t - 1) / 3`, where `p^12 - 1 = 27 t`.
pub open spec fn cube_root_exponent() -> nat {
    0x431939c670b1ab47eb790f8ba52029cab15c5ab62ad4bc648b6f3994d50299807536a45c8aa2c865c4b48bf7ae04b4634b8e40db33141c4e4bc81a2f858a7943d8c22b0b1bc64bcfd30c54e3a4fc17c7fc443e472feccc72ff85bc2604366cc70da600a9eee4b5606bec12685a86eeb091fad5c856b7becc4e47768d05d88302c654e265edb058bb273dbc14cc211d608d3e8ebcd6fd085df4f4f3fe6012c3374ceee762cd1b5c7192987312de1ced8d2b3ec1b70531f4dd3227afd2cdecb11ef3fcd107d64092bc5e8e4d1e9ecf059230468eedcc4e638d45c77bd888a4519663202fcd5a9d97580e2c5ff19033b4b7033ac77484246fd9da64a7813b4e16674236762d4f0b8eb29f24618c6abd38ce2714300f5306af815ceda1b4eecc4a7afcd4b0d0835251dc7eac43ca4287bda109a5b94872bf780e92e78129ed238222d56456734b13611d31c674e33aa8a5bb396d0b9d380b829ae90df31cf3bd9c0e5f16e8ba21718ab4851396b1f721473680bdadcd4d9fc5f39c39d079a3b37a5b9f2fc362c155e27e716a63e84781cf8bbbaeb00466fdc0514276d71025854d003a4aaf2534545d30dd1ecf5df631ae0ca25d626fc9ce84e3e6be01923607c3262e7619f7959c258aa8c0e460b31fc73370af2afa65cb4522dfd52422fa1091973c0f0c32e893813c14144b31027aadc0b8760adaafb4831fc813f4a9725bcb1bf5f23f5783a72ddc2502c587cca9c370f57bb6402fce9a27fb13f3d62da9b4efcf75bb715ff4f3a60400281088460003e8ff4891ee7904387c565nat
}

/// The residue `c` in `c (1 + u)`, the power `l` of `1 + u`.
pub open spec fn witness_residue() -> int {
    0xda5ab808c2e3e46345cfe648f0f39310500848801b116797f9f65cf96551f4ce79a7c3325f14b08fed96e3decf195ccint
}

/// The element `c (1 + u) v`: the power `t` of the non-cube `v`, a generator
/// of the subgroup of order 27.
pub open spec fn witness() -> Fp12Val {
    Fp12Val {
        c0: Fp6Val {
            c0: fp2_zero(),
            c1: Fp2Val { c0: witness_residue(), c1: witness_residue() },
            c2: fp2_zero(),
        },
        c1: fp6_zero(),
    }
}

/// The cube `a^2 * a`.
pub open spec fn fp12_cube(a: Fp12Val) -> Fp12Val {
    fp12_mul(fp12_square(a), a)
}

/// One round of correction: `value` as it is where the residual `d` is one,
/// times the square of `g` where `d` is the cube root of unity `unity`, and
/// times `g` otherwise.
pub open spec fn adjusted(value: Fp12Val, g: Fp12Val, d: Fp12Val, unity: Fp12Val) -> Fp12Val {
    if d == fp12_one() {
        value
    } else if d == unity {
        fp12_mul(value, fp12_square(g))
    } else {
        fp12_mul(value, g)
    }
}

/// What the method yields for `a`: one power by `l`, two rounds of
/// correction, and a last square and product. Where `a` is a cube this is a
/// cube root of it, by the theory of the group of order `27 t`, which is not
/// proved here; `cube_root` cubes the result to tell.
pub open spec fn cube_root_candidate(a: Fp12Val) -> Fp12Val {
    let g0 = witness();
    let g1 = fp12_cube(g0);
    let unity = fp12_cube(g1);
    let x0 = fp12_pow(a, cube_root_exponent());
    let b0 = fp12_mul(fp12_cube(x0), a);
    let d1 = fp12_cube(b0);
    let b1 = adjusted(b0, g1, d1, unity);
    let h1 = adjusted(fp12_one(), g0, d1, unity);
    let h2 = adjusted(h1, g1, b1, unity);
    let x = fp12_mul(x0, h2);
    fp12_mul(fp12_square(x), a)
}

/// The exponent comes from the order of the multiplicative group of the
/// target field: `p^12 - 1 = 27 (3 l + 1)`.
pub proof fn lemma_exponent_from_group_order()
    ensures
        ({
            let square = modulus() * modulus();
            let fourth = square * square;
            fourth * fourth * fourth - 1 == 27 * (3 * cube_root_exponent() + 1)
        }),
{
    let prime = modulus();
    let square = 0x2a437a4b8c35fc74bd278eaa22f25e9e2dc90e50e7046b466e59e49349e8bd050a62cfd16ddca6ef53149330978ef011d68619c86185c7b292e85a87091a04966bf91ed3e71b743162c338362113cfd7ced6b1d76382eab26aa00001c718e39int;
    let fourth = 0x6fa35ea07f933075c3845b739dd32f5eb2b61db840b9ae645e939aa89cd73a99c59fd05fee1f4af7173d14b1b0d29182da93951931f679853ce1f838eccf7a4447ff7faed00ae2da4f35a647f45e8af8835a5a9ef06fb9506af012a3f0de3e36ae5d3c2202f747fc2e1cfdde4c28c7ed3216686d34382d66b032ff76e66a3a83838a44fd4831bb632b322eb2660bbf4e24be17e663c88792b359b489cd8595bb9bf330327ff3468f8cd132ffe2f31cb5ff2f79c57f92fd2dd097b555548b1int;
    let eighth = 0x30af1450d1fe5bc5a4aa2f59d91b92aa7c4ee7732570881d680f4b7f1878d30b4a5cd101f183e0122cd67a7a17ce78096fce6d83adb6072e682f16eee1a2cbe49ea144c44b5823f87977fdfa0027c4dc1fac1a3a7bd2ca6a05bc28a1cbb49d09c046d151ada419105158731911b193c4a150b59e17721ab8ddccc0f157b2d5d036ce1b0a220770d53e58e16350ca50eb2ddf5b7d1bead0ffb53cf68acc16bf7d4660c035abcd34e4dfcceb973a4a8dc36ba98cfe47a0c8cce9c83b9511145a4cb909d842077b2776f4ce19a866a799e29b151721650d15815ae4138c1827f8f3332522d7210512de9e7621672ecd8546d7ef81d488c846d21e481c7ead5cfa8fad999abf8e9a0ab2ad3dc9f4b897dc9bddde0523ed4a67ac71ccc248d204513f3ffb563b8adc7b950d8aaf5234c9f5c5155fcdcc4cf4e0607b45b9f388b9b2b3964840ed9ae9c9e1edd134b36d2809f29f9977f59f66e851aa36d617997af024a5dd80e29612757cb641f3a8966a7da3ce14522aeb011c0ac4e42e0a61int;
    let twelfth = 0x153afb47c9a83731c1814deb2f3f2d39221e38b3a38d4f9bd01e31381765d291a5164a0147dd8168333d20495e0f7d136ae802855b295cf4c5fa50490940d05e77956f9e83c9bdfcc1c6e6dc0733c38646d197b48629ecb062d950880755386afb518635c4965d638225b1d304a4b185de305da46370235ea4c49c829ed98173e0c0dba24034cc13376a888294967a4b8cb0cb29c0060fa5ba8181337c65efc47f57973642e5a83fef623c68f8472729aaaedb4ae8a4ce79fcde8ea1b327e40acb32fe237aca6e6d99eb0666b03f80c3414653393da4cd7fb3141e2f833bfdd0955d2f1ff9abdce2dc7c0a5b6ea05c2de805991bddcf8763ee19d8ffe3c3b516abf33b645602a826845a82dd6dc5def93a5d6334d9451d87ee67302a3f8ea390e9ff4bf1f98d0be6c4148172ff0cf2fff40d6f9fec4e94fc9c7b3fde44083c2d0584bf5a7ac121ba3cbfcafbe58f5c703d2b80acbebba45303bd69ec291efe608c163fa2e494ece31e1b32ae4f3187883ebc03fdf58f8da2146e4af67ccbc9b6fd5e1cd23f2c2caa01e2a99c7ea012ab366245b1649649d9b6079a0c1bdf2d5d1271a16ac58eb17c75f6bf9cbae5b811ff5f8c255eda580c1c021e7f431874bf14b35e37565667e0df65084298ad0e0746a76c993a3550e008d2706f111f3e10da00c2dc1b96abe4025a6bca81c8d0f9fa5d596f31981d7d0e4e50699d2f0b43d8d1a60ab0a7e582a7b5e07ff7c1b6d6bdac24aa4f205ec6a6715026c472b23fe0a4404edf5c811787440cad3b1e26013cb8c5f62c744a55df57511int;
    assert(prime * prime == square) by (nonlinear_arith)
        requires
            prime == 0x1a0111ea397fe69a4b1ba7b6434bacd764774b84f38512bf6730d2a0f6b0f6241eabfffeb153ffffb9feffffffffaaabint,
            square == 0x2a437a4b8c35fc74bd278eaa22f25e9e2dc90e50e7046b466e59e49349e8bd050a62cfd16ddca6ef53149330978ef011d68619c86185c7b292e85a87091a04966bf91ed3e71b743162c338362113cfd7ced6b1d76382eab26aa00001c718e39int,
    ;
    assert(square * square == fourth) by (nonlinear_arith)
        requires
            square == 0x2a437a4b8c35fc74bd278eaa22f25e9e2dc90e50e7046b466e59e49349e8bd050a62cfd16ddca6ef53149330978ef011d68619c86185c7b292e85a87091a04966bf91ed3e71b743162c338362113cfd7ced6b1d76382eab26aa00001c718e39int,
            fourth == 0x6fa35ea07f933075c3845b739dd32f5eb2b61db840b9ae645e939aa89cd73a99c59fd05fee1f4af7173d14b1b0d29182da93951931f679853ce1f838eccf7a4447ff7faed00ae2da4f35a647f45e8af8835a5a9ef06fb9506af012a3f0de3e36ae5d3c2202f747fc2e1cfdde4c28c7ed3216686d34382d66b032ff76e66a3a83838a44fd4831bb632b322eb2660bbf4e24be17e663c88792b359b489cd8595bb9bf330327ff3468f8cd132ffe2f31cb5ff2f79c57f92fd2dd097b555548b1int,
    ;
    assert(fourth * fourth == eighth) by (nonlinear_arith)
        requires
            fourth == 0x6fa35ea07f933075c3845b739dd32f5eb2b61db840b9ae645e939aa89cd73a99c59fd05fee1f4af7173d14b1b0d29182da93951931f679853ce1f838eccf7a4447ff7faed00ae2da4f35a647f45e8af8835a5a9ef06fb9506af012a3f0de3e36ae5d3c2202f747fc2e1cfdde4c28c7ed3216686d34382d66b032ff76e66a3a83838a44fd4831bb632b322eb2660bbf4e24be17e663c88792b359b489cd8595bb9bf330327ff3468f8cd132ffe2f31cb5ff2f79c57f92fd2dd097b555548b1int,
            eighth == 0x30af1450d1fe5bc5a4aa2f59d91b92aa7c4ee7732570881d680f4b7f1878d30b4a5cd101f183e0122cd67a7a17ce78096fce6d83adb6072e682f16eee1a2cbe49ea144c44b5823f87977fdfa0027c4dc1fac1a3a7bd2ca6a05bc28a1cbb49d09c046d151ada419105158731911b193c4a150b59e17721ab8ddccc0f157b2d5d036ce1b0a220770d53e58e16350ca50eb2ddf5b7d1bead0ffb53cf68acc16bf7d4660c035abcd34e4dfcceb973a4a8dc36ba98cfe47a0c8cce9c83b9511145a4cb909d842077b2776f4ce19a866a799e29b151721650d15815ae4138c1827f8f3332522d7210512de9e7621672ecd8546d7ef81d488c846d21e481c7ead5cfa8fad999abf8e9a0ab2ad3dc9f4b897dc9bddde0523ed4a67ac71ccc248d204513f3ffb563b8adc7b950d8aaf5234c9f5c5155fcdcc4cf4e0607b45b9f388b9b2b3964840ed9ae9c9e1edd134b36d2809f29f9977f59f66e851aa36d617997af024a5dd80e29612757cb641f3a8966a7da3ce14522aeb011c0ac4e42e0a61int,
    ;
    assert(eighth * fourth == twelfth) by (nonlinear_arith)
        requires
            fourth == 0x6fa35ea07f933075c3845b739dd32f5eb2b61db840b9ae645e939aa89cd73a99c59fd05fee1f4af7173d14b1b0d29182da93951931f679853ce1f838eccf7a4447ff7faed00ae2da4f35a647f45e8af8835a5a9ef06fb9506af012a3f0de3e36ae5d3c2202f747fc2e1cfdde4c28c7ed3216686d34382d66b032ff76e66a3a83838a44fd4831bb632b322eb2660bbf4e24be17e663c88792b359b489cd8595bb9bf330327ff3468f8cd132ffe2f31cb5ff2f79c57f92fd2dd097b555548b1int,
            eighth == 0x30af1450d1fe5bc5a4aa2f59d91b92aa7c4ee7732570881d680f4b7f1878d30b4a5cd101f183e0122cd67a7a17ce78096fce6d83adb6072e682f16eee1a2cbe49ea144c44b5823f87977fdfa0027c4dc1fac1a3a7bd2ca6a05bc28a1cbb49d09c046d151ada419105158731911b193c4a150b59e17721ab8ddccc0f157b2d5d036ce1b0a220770d53e58e16350ca50eb2ddf5b7d1bead0ffb53cf68acc16bf7d4660c035abcd34e4dfcceb973a4a8dc36ba98cfe47a0c8cce9c83b9511145a4cb909d842077b2776f4ce19a866a799e29b151721650d15815ae4138c1827f8f3332522d7210512de9e7621672ecd8546d7ef81d488c846d21e481c7ead5cfa8fad999abf8e9a0ab2ad3dc9f4b897dc9bddde0523ed4a67ac71ccc248d204513f3ffb563b8adc7b950d8aaf5234c9f5c5155fcdcc4cf4e0607b45b9f388b9b2b3964840ed9ae9c9e1edd134b36d2809f29f9977f59f66e851aa36d617997af024a5dd80e29612757cb641f3a8966a7da3ce14522aeb011c0ac4e42e0a61int,
            twelfth == 0x153afb47c9a83731c1814deb2f3f2d39221e38b3a38d4f9bd01e31381765d291a5164a0147dd8168333d20495e0f7d136ae802855b295cf4c5fa50490940d05e77956f9e83c9bdfcc1c6e6dc0733c38646d197b48629ecb062d950880755386afb518635c4965d638225b1d304a4b185de305da46370235ea4c49c829ed98173e0c0dba24034cc13376a888294967a4b8cb0cb29c0060fa5ba8181337c65efc47f57973642e5a83fef623c68f8472729aaaedb4ae8a4ce79fcde8ea1b327e40acb32fe237aca6e6d99eb0666b03f80c3414653393da4cd7fb3141e2f833bfdd0955d2f1ff9abdce2dc7c0a5b6ea05c2de805991bddcf8763ee19d8ffe3c3b516abf33b645602a826845a82dd6dc5def93a5d6334d9451d87ee67302a3f8ea390e9ff4bf1f98d0be6c4148172ff0cf2fff40d6f9fec4e94fc9c7b3fde44083c2d0584bf5a7ac121ba3cbfcafbe58f5c703d2b80acbebba45303bd69ec291efe608c163fa2e494ece31e1b32ae4f3187883ebc03fdf58f8da2146e4af67ccbc9b6fd5e1cd23f2c2caa01e2a99c7ea012ab366245b1649649d9b6079a0c1bdf2d5d1271a16ac58eb17c75f6bf9cbae5b811ff5f8c255eda580c1c021e7f431874bf14b35e37565667e0df65084298ad0e0746a76c993a3550e008d2706f111f3e10da00c2dc1b96abe4025a6bca81c8d0f9fa5d596f31981d7d0e4e50699d2f0b43d8d1a60ab0a7e582a7b5e07ff7c1b6d6bdac24aa4f205ec6a6715026c472b23fe0a4404edf5c811787440cad3b1e26013cb8c5f62c744a55df57511int,
    ;
    assert(fourth * fourth * fourth == twelfth);
}

/// The generator of the subgroup of order 27.
pub fn witness_element() -> (r: Fp12)
    ensures
        r@ == witness(),
{
    assert(value6(WITNESS_LIMBS) == witness_residue());
    let c = Fp::from_limbs(WITNESS_LIMBS).unwrap();
    Fp12 {
        c0: Fp6 { c0: Fp2::zero(), c1: Fp2::new(c, c), c2: Fp2::zero() },
        c1: Fp6::zero(),
    }
}

/// The cube of an element.
pub fn cube(a: &Fp12) -> (r: Fp12)
    ensures
        r@ == fp12_cube(a@),
{
    a.square().mul(a)
}

/// One round of correction.
pub fn adjust(value: &Fp12, g: &Fp12, d: &Fp12, unity: &Fp12) -> (r: Fp12)
    ensures
        r@ == adjusted(value@, g@, d@, unity@),
{
    if d.equals(&Fp12::one()) {
        *value
    } else if d.equals(unity) {
        value.mul(&g.square())
    } else {
        value.mul(g)
    }
}

/// The power `l` of an element.
pub fn pow_exponent(a: &Fp12) -> (r: Fp12)
    ensures
        r@ == fp12_pow(a@, cube_root_exponent()),
{
    let x11 = a.pow_chunk(Fp12::one(), EXPONENT[11], Ghost(0));
    let ghost n11 = value6(EXPONENT[11]) as nat;
    let x10 = a.pow_chunk(x11, EXPONENT[10], Ghost(n11));
    let ghost n10 = (n11 * radix() + value6(EXPONENT[10])) as nat;
    let x9 = a.pow_chunk(x10, EXPONENT[9], Ghost(n10));
    let ghost n9 = (n10 * radix() + value6(EXPONENT[9])) as nat;
    let x8 = a.pow_chunk(x9, EXPONENT[8], Ghost(n9));
    let ghost n8 = (n9 * radix() + value6(EXPONENT[8])) as nat;
    let x7 = a.pow_chunk(x8, EXPONENT[7], Ghost(n8));
    let ghost n7 = (n8 * radix() + value6(EXPONENT[7])) as nat;
    let x6 = a.pow_chunk(x7, EXPONENT[6], Ghost(n7));
    let ghost n6 = (n7 * radix() + value6(EXPONENT[6])) as nat;
    let x5 = a.pow_chunk(x6, EXPONENT[5], Ghost(n6));
    let ghost n5 = (n6 * radix() + value6(EXPONENT[5])) as nat;
    let x4 = a.pow_chunk(x5, EXPONENT[4], Ghost(n5));
    let ghost n4 = (n5 * radix() + value6(EXPONENT[4])) as nat;
    let x3 = a.pow_chunk(x4, EXPONENT[3], Ghost(n4));
    let ghost n3 = (n4 * radix() + value6(EXPONENT[3])) as nat;
    let x2 = a.pow_chunk(x3, EXPONENT[2], Ghost(n3));
    let ghost n2 = (n3 * radix() + value6(EXPONENT[2])) as nat;
    let x1 = a.pow_chunk(x2, EXPONENT[1], Ghost(n2));
    let ghost n1 = (n2 * radix() + value6(EXPONENT[1])) as nat;
    let x0 = a.pow_chunk(x1, EXPONENT[0], Ghost(n1));
    let ghost n0 = (n1 * radix() + value6(EXPONENT[0])) as nat;
    assert(n0 == cube_root_exponent());
    x0
}

/// The Tonelli-Shanks method for cube roots: one power by `l` and two rounds of
/// correction. For a cube the result is a cube root of it; for another
/// element it is the same expression, which is no cube root.
pub fn tonelli_shanks(a: Fp12) -> (r: Fp12)
    ensures
        r@ == cube_root_candidate(a@),
{
    let g0 = witness_element();
    let g1 = cube(&g0);
    let unity = cube(&g1);
    let x0 = pow_exponent(&a);
    let b0 = cube(&x0).mul(&a);
    let d1 = cube(&b0);
    let b1 = adjust(&b0, &g1, &d1, &unity);
    let h1 = adjust(&Fp12::one(), &g0, &d1, &unity);
    let h2 = adjust(&h1, &g1, &b1, &unity);
    let x = x0.mul(&h2);
    x.square().mul(&a)
}

/// A cube root of `a`: what the Tonelli-Shanks method yields where the cube of
/// that is `a`, and none otherwise.
pub fn cube_root(a: Fp12) -> (r: Option<Fp12>)
    ensures
        match r {
            Some(x) => x@ == cube_root_candidate(a@) && fp12_cube(x@) == a@,
            None => fp12_cube(cube_root_candidate(a@)) != a@,
        },
{
    let x = tonelli_shanks(a);
    if cube(&x).equals(&a) {
        Some(x)
    } else {
        None
    }
}

} // verus!
