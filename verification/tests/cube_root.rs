use fast_pairings::cube_root::{
    adjust, cube, cube_root, pow_exponent, tonelli_shanks, witness_element, EXPONENT,
};
use fast_pairings::fp::Fp;
use fast_pairings::fp12::Fp12;
use fast_pairings::fp2::Fp2;
use fast_pairings::fp6::Fp6;
use rand::RngCore;

fn fp(limbs: [u64; 6]) -> Fp {
    Fp::from_limbs(limbs).unwrap()
}

fn fp2(c0: [u64; 6], c1: [u64; 6]) -> Fp2 {
    Fp2::new(fp(c0), fp(c1))
}

fn small(n: u64) -> Fp {
    fp([n, 0, 0, 0, 0, 0])
}

fn random_fp(rng: &mut rand::rngs::ThreadRng) -> Fp {
    loop {
        let mut limbs = [0u64; 6];
        for limb in limbs.iter_mut() {
            *limb = rng.next_u64();
        }
        limbs[5] &= 0x1fff_ffff_ffff_ffff;
        if let Some(x) = Fp::from_limbs(limbs) {
            return x;
        }
    }
}

fn random_fp12(rng: &mut rand::rngs::ThreadRng) -> Fp12 {
    let mut c = [Fp::zero(); 12];
    for x in c.iter_mut() {
        *x = random_fp(rng);
    }
    Fp12 {
        c0: Fp6 {
            c0: Fp2::new(c[0], c[1]),
            c1: Fp2::new(c[2], c[3]),
            c2: Fp2::new(c[4], c[5]),
        },
        c1: Fp6 {
            c0: Fp2::new(c[6], c[7]),
            c1: Fp2::new(c[8], c[9]),
            c2: Fp2::new(c[10], c[11]),
        },
    }
}

fn small2(a: u64, b: u64) -> Fp2 {
    Fp2::new(small(a), small(b))
}

fn small_element() -> Fp12 {
    Fp12 {
        c0: Fp6 { c0: small2(2, 3), c1: small2(5, 7), c2: small2(11, 13) },
        c1: Fp6 { c0: small2(17, 19), c1: small2(23, 29), c2: small2(31, 37) },
    }
}

fn v() -> Fp12 {
    Fp12 {
        c0: Fp6 { c0: Fp2::zero(), c1: Fp2::one(), c2: Fp2::zero() },
        c1: Fp6::zero(),
    }
}

#[test]
fn test_tonelli_shanks() {
    let b = random_fp12(&mut rand::thread_rng());
    let a = b.square().mul(&b);
    let cubic_root = tonelli_shanks(a);
    assert_eq!(cubic_root.square().mul(&cubic_root), a);
}

#[test]
fn cube_root_of_a_fixed_cube() {
    let a = cube(&small_element());
    assert_eq!(a, Fp12 { c0: Fp6 { c0: fp2([0xb9fe_ffff_fff9_87db, 0x1eab_fffe_b153_ffff, 0x6730_d2a0_f6b0_f624, 0x6477_4b84_f385_12bf, 0x4b1b_a7b6_434b_acd7, 0x1a01_11ea_397f_e69a], [0xb9fe_ffff_fff8_250a, 0x1eab_fffe_b153_ffff, 0x6730_d2a0_f6b0_f624, 0x6477_4b84_f385_12bf, 0x4b1b_a7b6_434b_acd7, 0x1a01_11ea_397f_e69a]), c1: fp2([0xb9fe_ffff_fff8_cfb4, 0x1eab_fffe_b153_ffff, 0x6730_d2a0_f6b0_f624, 0x6477_4b84_f385_12bf, 0x4b1b_a7b6_434b_acd7, 0x1a01_11ea_397f_e69a], [0xb9fe_ffff_fffa_f658, 0x1eab_fffe_b153_ffff, 0x6730_d2a0_f6b0_f624, 0x6477_4b84_f385_12bf, 0x4b1b_a7b6_434b_acd7, 0x1a01_11ea_397f_e69a]), c2: fp2([0xb9fe_ffff_fff8_8a48, 0x1eab_fffe_b153_ffff, 0x6730_d2a0_f6b0_f624, 0x6477_4b84_f385_12bf, 0x4b1b_a7b6_434b_acd7, 0x1a01_11ea_397f_e69a], [0xb9fe_ffff_fffd_e1e8, 0x1eab_fffe_b153_ffff, 0x6730_d2a0_f6b0_f624, 0x6477_4b84_f385_12bf, 0x4b1b_a7b6_434b_acd7, 0x1a01_11ea_397f_e69a]) }, c1: Fp6 { c0: fp2([0xb9fe_ffff_fff6_0710, 0x1eab_fffe_b153_ffff, 0x6730_d2a0_f6b0_f624, 0x6477_4b84_f385_12bf, 0x4b1b_a7b6_434b_acd7, 0x1a01_11ea_397f_e69a], [0xb9fe_ffff_fff6_2906, 0x1eab_fffe_b153_ffff, 0x6730_d2a0_f6b0_f624, 0x6477_4b84_f385_12bf, 0x4b1b_a7b6_434b_acd7, 0x1a01_11ea_397f_e69a]), c1: fp2([0xb9fe_ffff_fff5_3cf8, 0x1eab_fffe_b153_ffff, 0x6730_d2a0_f6b0_f624, 0x6477_4b84_f385_12bf, 0x4b1b_a7b6_434b_acd7, 0x1a01_11ea_397f_e69a], [0xb9fe_ffff_fffa_67d6, 0x1eab_fffe_b153_ffff, 0x6730_d2a0_f6b0_f624, 0x6477_4b84_f385_12bf, 0x4b1b_a7b6_434b_acd7, 0x1a01_11ea_397f_e69a]), c2: fp2([0xb9fe_ffff_fff5_0e2e, 0x1eab_fffe_b153_ffff, 0x6730_d2a0_f6b0_f624, 0x6477_4b84_f385_12bf, 0x4b1b_a7b6_434b_acd7, 0x1a01_11ea_397f_e69a], [0xb9fe_ffff_fffd_ac30, 0x1eab_fffe_b153_ffff, 0x6730_d2a0_f6b0_f624, 0x6477_4b84_f385_12bf, 0x4b1b_a7b6_434b_acd7, 0x1a01_11ea_397f_e69a]) } });
    let root = tonelli_shanks(a);
    assert_eq!(root, Fp12 { c0: Fp6 { c0: fp2([0x5dfb_0000_0001_aaad, 0x627c_4fd7_ed3f_fffb, 0xabc9_8029_28bf_c912, 0xefa3_bf76_1f66_22e9, 0x8ce8_d956_845e_1033, 0x1a01_11ea_397f_e699], [0x2ff9_0000_0002_aaae, 0x8464_77c4_8b35_fff9, 0xce15_d6ed_41c7_3289, 0x3539_f96e_b556_aafe, 0x2dcf_7226_a4e7_41e2, 0x1a01_11ea_397f_e699]), c1: fp2([0xd3f5_0000_0004_aab0, 0xc834_c79d_c721_fff4, 0x12ae_8475_73d6_0577, 0xc066_6d5f_e137_bb29, 0x6f9c_a3c6_e5f9_a53e, 0x1a01_11ea_397f_e698], [0x77f1_0000_0006_aab2, 0x0c05_1777_030d_fff0, 0x5747_31fd_a5e4_d866, 0x4b92_e151_0d18_cb53, 0xb169_d567_270c_089b, 0x1a01_11ea_397f_e697]), c2: fp2([0xbfe9_0000_000a_aab6, 0x93a5_b729_7ae5_ffe7, 0xe078_8d0e_0a02_7e42, 0x61eb_c933_64da_eba7, 0x3504_38a7_a930_cf54, 0x1a01_11ea_397f_e696], [0x63e5_0000_000c_aab8, 0xd776_0702_b6d1_ffe3, 0x2511_3a96_3c11_5130, 0xed18_3d24_90bb_fbd2, 0x76d1_6a47_ea43_32b0, 0x1a01_11ea_397f_e695]) }, c1: Fp6 { c0: fp2([0xabdd_0000_0010_aabc, 0x5f16_a6b5_2ea9_ffda, 0xae42_95a6_a02e_f70d, 0x0371_2506_e87e_1c26, 0xfa6b_cd88_6c67_f96a, 0x1a01_11ea_397f_e693], [0x4fd9_0000_0012_aabe, 0xa2e6_f68e_6a95_ffd6, 0xf2db_432e_d23d_c9fb, 0x8e9d_98f8_145f_2c50, 0x3c38_ff28_ad7a_5cc6, 0x1a01_11ea_397f_e693]), c1: fp2([0x97d1_0000_0016_aac2, 0x2a87_9640_e26d_ffcd, 0x7c0c_9e3f_365b_6fd8, 0xa4f6_80da_6c21_4ca5, 0xbfd3_6269_2f9f_237f, 0x1a01_11ea_397f_e691], [0x83c5_0000_001c_aac8, 0xf5f8_85cc_9631_ffc0, 0x49d6_a6d7_cc87_e8a2, 0x467b_dcad_efc4_7d24, 0x853a_f749_f2d6_4d95, 0x1a01_11ea_397f_e68f]), c2: fp2([0x27c1_0000_001e_aaca, 0x39c8_d5a5_d21d_ffbc, 0x8e6f_545f_fe96_bb91, 0xd1a8_509f_1ba5_8d4e, 0xc708_28ea_33e8_b0f1, 0x1a01_11ea_397f_e68e], [0x13b5_0000_0024_aad0, 0x0539_c531_85e1_ffaf, 0x5c39_5cf8_94c3_345c, 0x732d_ac72_9f48_bdcd, 0x8c6f_bdca_f71f_db07, 0x1a01_11ea_397f_e68c]) } });
    assert_eq!(cube(&root), a);
    assert_eq!(cube_root(a), Some(root));
}

#[test]
fn cube_root_of_another_fixed_cube() {
    let a = Fp12 { c0: Fp6 { c0: fp2([0x617a_47ab_3582_9c8a, 0x1aaf_64b5_54cd_3216, 0x4aa4_bd2f_2a0a_0faf, 0xf68c_5513_75c0_6ae0, 0x0366_5226_03ae_ee87, 0x0aa9_2f7d_b046_aa78], [0x4d3f_f35c_4cf9_b9f9, 0x0f01_647c_d352_61ea, 0x3f67_f0c5_8706_9e19, 0x9f9e_3bf2_9d2a_16c4, 0xb0db_8b88_6f64_15b4, 0x0f20_49e7_0d41_623d]), c1: fp2([0xfe08_bcd8_47a9_ad47, 0x7303_7c3a_e856_845c, 0x42ad_3d31_b5c0_1979, 0xd307_4ce0_611f_b495, 0x6f10_4ac0_111a_8d09, 0x07bd_886f_7afa_ac28], [0xd08b_e275_480e_ef0f, 0x45a6_43fc_156b_ef22, 0xc5a5_f2bf_acef_775c, 0x8807_7978_689d_b0c1, 0x412b_a497_6bf4_0758, 0x186e_c948_6088_b872]), c2: fp2([0x77ba_244f_d3fd_f2a2, 0x71bb_87d1_4afe_41ae, 0x684f_a2f4_57f8_f157, 0xee42_f448_caf5_71cb, 0x1940_381f_cfde_14bc, 0x0183_c0e5_94bd_6046], [0x0da9_e652_4d99_eb69, 0xa23d_ffba_c7bc_3e2c, 0x9267_ba9b_4e6a_95a7, 0x0045_aa0e_5342_acf7, 0x7527_edd4_03e7_ce7a, 0x0e88_ded9_6b68_7bf7]) }, c1: Fp6 { c0: fp2([0xef87_074b_deb8_a8a4, 0x5a81_4ef9_da94_7671, 0x4c25_7b46_4f72_5a2f, 0x9baf_1ee4_4791_d3fb, 0xa10d_67b5_a2ed_37b1, 0x11d3_5e5d_72d4_07e8], [0x6b26_8df6_6e87_3cd1, 0x013f_d69c_1c91_463e, 0x3e46_f7a1_6537_5360, 0x7c3a_4887_4c6d_a060, 0x7313_9aae_1c44_f378, 0x160a_120b_af9d_2cdf]), c1: fp2([0x8713_1e77_ad17_8184, 0x9d1c_594e_c515_d193, 0xe918_8c6c_7a47_de33, 0x1907_b871_fa0e_fdfa, 0x1f0b_67a1_77e4_9383, 0x035c_ff41_940d_3207], [0xa739_ea6f_2c60_055b, 0x2c3c_7de0_4e61_7ec0, 0x2e07_39ce_3d7e_976f, 0xb69a_42b0_fc24_2b83, 0xb11a_fbb5_9c23_3487, 0x1809_9a85_bfe9_32f7]), c2: fp2([0xffe0_4a52_789a_e14e, 0x315c_4a04_d9d3_ee96, 0xb3d3_1725_29b5_e241, 0x856e_a005_630d_738f, 0x8fdc_de15_e98a_df85, 0x05e4_c2b1_8dca_81dd], [0xd696_b64f_19bf_d9ff, 0x7482_aef9_80c0_b571, 0x708e_1780_2c7e_8c40, 0xcc37_52f2_301e_1999, 0x6e25_ba4a_c499_879f, 0x15e5_7bca_9d8d_4d4d]) } };
    let root = Fp12 { c0: Fp6 { c0: fp2([0xd73a_cde5_987a_de69, 0xfaaa_a2a1_8361_f85f, 0x5cce_c668_9cf4_9433, 0xca7f_9e1f_cc0b_9753, 0x5df7_05c9_2b8a_8ac5, 0x06ba_9625_3412_da5f], [0x371f_784a_1f8f_c971, 0x2b8d_0712_397d_fafb, 0x0d80_e4cd_dca5_945a, 0x8b02_0968_56e9_ab4b, 0x8192_361e_9b9c_d660, 0x0387_f3ad_0a06_fbdc]), c1: fp2([0x0786_c992_12b6_4170, 0xfc65_ee1b_cdeb_dee1, 0xdd9d_509b_6789_eeae, 0x4a4c_0b52_3299_0625, 0x02b5_1405_0e78_d4c8, 0x1939_37de_30e7_4dae], [0x5096_666b_706c_ef94, 0xef46_832b_f666_22c2, 0x3497_c0d1_9917_3cbb, 0xc252_c524_6b99_8e88, 0xcae2_aa31_7879_4511, 0x0e8e_1df6_401e_7404]), c2: fp2([0x8bc0_f4bb_dd44_1998, 0x3be9_bbb5_8dac_181c, 0xedd5_92be_df8e_4bce, 0x3dc7_9455_3e4b_5c7c, 0x50f4_5284_b001_cd19, 0x0b47_9e0a_6974_d68f], [0x283a_f487_a013_89e3, 0x59a4_3ecb_43a1_fc47, 0x6809_9dd0_7ec6_d8f3, 0x6da2_9d03_8b5b_3633, 0xc94c_4dbc_0937_c735, 0x011f_0fe3_a716_05ff]) }, c1: Fp6 { c0: fp2([0xbea7_f581_31f8_d663, 0x5147_31c3_ede5_6e67, 0x7d7b_6655_2765_a108, 0x5c43_3c28_6a2f_e6b4, 0x9365_24b9_65f2_18c4, 0x0475_4df5_eac2_517d], [0x5c52_d4eb_fc59_bbc3, 0xe692_444d_df5a_867b, 0x108b_fc77_53d0_effc, 0xf9a8_bcab_af56_e8da, 0xde70_954d_ed80_07ea, 0x04ef_209f_776e_3b50]), c1: fp2([0x86cf_7df6_47fe_d538, 0x92e3_0c4e_43e1_524a, 0xa389_cd66_c56a_f016, 0x513a_6540_a27e_0100, 0x99db_23be_d385_8638, 0x0c5d_cf59_fd27_250c], [0x0b94_2972_632c_a203, 0x729d_33be_e917_ac2a, 0xf1e0_d37a_3683_78b3, 0xcdb8_2f86_8500_c3f4, 0x998f_67d7_5d52_5897, 0x005a_fbaf_935b_bb76]), c2: fp2([0x3901_7f7b_24f1_877f, 0x3ad9_7de5_bcc7_7552, 0x7830_1184_f39e_2ef7, 0xd560_c903_b9fa_d40f, 0x8cb0_b06a_0c5c_d14b, 0x10bd_78a4_509a_ff8a], [0xb353_9da1_951e_5ead, 0x6009_9fa8_ea25_e221, 0x6c6f_f0c5_b9a1_73d6, 0x7c33_7641_26ea_061c, 0x0cd4_2fdd_ef87_512a, 0x15e1_e912_d3b2_2aac]) } };
    assert_eq!(tonelli_shanks(a), root);
    assert_eq!(cube_root(a), Some(root));
}

#[test]
fn cube_root_round_trip() {
    let mut rng = rand::thread_rng();
    for _ in 0..3 {
        let b = random_fp12(&mut rng);
        let a = cube(&b);
        let root = cube_root(a).unwrap();
        assert_eq!(cube(&root), a);
    }
}

#[test]
fn cube_roots_of_one_and_zero() {
    assert_eq!(cube_root(Fp12::one()), Some(Fp12::one()));
    assert_eq!(cube_root(Fp12::zero()), Some(Fp12::zero()));
}

#[test]
fn a_non_cube_has_no_cube_root() {
    assert_eq!(cube_root(v()), None);
    let meaningless = tonelli_shanks(v());
    assert_ne!(cube(&meaningless), v());
}

#[test]
fn the_witness_has_order_twenty_seven() {
    let g = witness_element();
    let g3 = cube(&g);
    let g9 = cube(&g3);
    let g27 = cube(&g9);
    assert_ne!(g9, Fp12::one());
    assert_eq!(g27, Fp12::one());
    // the witness is the power 3 l + 1 of v
    let x = pow_exponent(&v());
    assert_eq!(cube(&x).mul(&v()), g);
}

#[test]
fn the_exponent_table() {
    assert_eq!(EXPONENT.len(), 12);
    assert_eq!(EXPONENT[0][0], 0x891ee7904387c565);
    assert_eq!(EXPONENT[11][5], 0x43193);
    // the power l, taken at once and in two parts
    let a = small_element();
    let mut low = EXPONENT;
    low[11] = [0; 6];
    let mut high = [[0u64; 6]; 12];
    high[11] = EXPONENT[11];
    let mut by_parts = Fp12::one();
    for k in (0..12).rev() {
        for _ in 0..384 {
            by_parts = by_parts.square();
        }
        by_parts = by_parts.mul(&a.pow(high[k]));
    }
    let mut rest = Fp12::one();
    for k in (0..12).rev() {
        for _ in 0..384 {
            rest = rest.square();
        }
        rest = rest.mul(&a.pow(low[k]));
    }
    assert_eq!(pow_exponent(&a), by_parts.mul(&rest));
}

#[test]
fn a_round_of_correction() {
    let one = Fp12::one();
    let g = witness_element();
    let unity = cube(&cube(&g));
    let value = small_element();
    assert_eq!(adjust(&value, &g, &one, &unity), value);
    assert_eq!(adjust(&value, &g, &unity, &unity), value.mul(&g.square()));
    assert_eq!(adjust(&value, &g, &unity.square(), &unity), value.mul(&g));
}
