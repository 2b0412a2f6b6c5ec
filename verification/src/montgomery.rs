//! Montgomery multiplication modulo the base-field prime, on six-limb numbers.
use crate::limbs::{mul_add_row, mul_low, select6, sub6, value6, value7};
use vstd::prelude::*;

verus! {

/// The base-field modulus, a 381-bit prime.
pub open spec fn modulus() -> int {
    0x1a0111ea397fe69a4b1ba7b6434bacd764774b84f38512bf6730d2a0f6b0f6241eabfffeb153ffffb9feffffffffaaabint
}

/// The Montgomery radix `2^384`.
pub open spec fn radix() -> int {
    0x1_0000_0000_0000_0000_0000_0000_0000_0000_0000_0000_0000_0000_0000_0000_0000_0000_0000_0000_0000_0000_0000_0000_0000_0000int
}

/// The inverse of the radix modulo the modulus.
pub open spec fn radix_inv() -> int {
    0x14fec701e8fb0ce9ed5e64273c4f538b1797ab1458a88de9343ea97914956dc87fe11274d898fafbf4d38259380b4820int
}

/// The limbs of the modulus.
pub const MODULUS: [u64; 6] = [
    0xb9fe_ffff_ffff_aaab,
    0x1eab_fffe_b153_ffff,
    0x6730_d2a0_f6b0_f624,
    0x6477_4b84_f385_12bf,
    0x4b1b_a7b6_434b_acd7,
    0x1a01_11ea_397f_e69a,
];

/// The negated inverse of the modulus, modulo `2^64`.
pub const INV: u64 = 0x89f3_fffc_fffc_fffd;

/// The constants agree with each other.
pub proof fn lemma_constants()
    ensures
        value6(MODULUS) == modulus(),
        (radix() * radix_inv()) % modulus() == 1,
        MODULUS[0] as int * INV as int + 1 == 0x643a_be09_d200_a405 * 0x1_0000_0000_0000_0000,
{
}

/// Adding the right multiple of the modulus clears the low limb.
pub proof fn lemma_low_limb_clears(u0: int, m: int)
    requires
        0 <= u0 < 0x1_0000_0000_0000_0000,
        m == (u0 * (INV as int)) % 0x1_0000_0000_0000_0000,
    ensures
        (u0 + m * (MODULUS[0] as int)) % 0x1_0000_0000_0000_0000 == 0,
{
    lemma_constants();
    let w = 0x1_0000_0000_0000_0000int;
    let low = MODULUS[0] as int;
    let inv = INV as int;
    let q = 0x643a_be09_d200_a405int;
    let j = (u0 * inv) / w;
    assert(u0 * inv == j * w + m);
    assert(u0 + m * low == (u0 * q - j * low) * w) by (nonlinear_arith)
        requires
            u0 * inv == j * w + m,
            low * inv + 1 == q * w,
    ;
    vstd::arithmetic::div_mod::lemma_mod_multiples_basic(u0 * q - j * low, w);
}

/// A seven-limb number that is a multiple of `2^64` has a zero low limb.
pub proof fn lemma_low_limb_zero(v: [u64; 7], u: [u64; 7], m: int)
    requires
        value7(v) == value7(u) + m * modulus(),
        (u[0] as int + m * (MODULUS[0] as int)) % 0x1_0000_0000_0000_0000 == 0,
    ensures
        v[0] == 0,
{
    let w = 0x1_0000_0000_0000_0000int;
    let vh = v[1] as int + v[2] as int * 0x1_0000_0000_0000_0000 + v[3] as int
        * 0x1_0000_0000_0000_0000_0000_0000_0000_0000 + v[4] as int
        * 0x1_0000_0000_0000_0000_0000_0000_0000_0000_0000_0000_0000_0000 + v[5] as int
        * 0x1_0000_0000_0000_0000_0000_0000_0000_0000_0000_0000_0000_0000_0000_0000_0000_0000
        + v[6] as int
        * 0x1_0000_0000_0000_0000_0000_0000_0000_0000_0000_0000_0000_0000_0000_0000_0000_0000_0000_0000_0000_0000;
    let uh = u[1] as int + u[2] as int * 0x1_0000_0000_0000_0000 + u[3] as int
        * 0x1_0000_0000_0000_0000_0000_0000_0000_0000 + u[4] as int
        * 0x1_0000_0000_0000_0000_0000_0000_0000_0000_0000_0000_0000_0000 + u[5] as int
        * 0x1_0000_0000_0000_0000_0000_0000_0000_0000_0000_0000_0000_0000_0000_0000_0000_0000
        + u[6] as int
        * 0x1_0000_0000_0000_0000_0000_0000_0000_0000_0000_0000_0000_0000_0000_0000_0000_0000_0000_0000_0000_0000;
    let ph = 0x1a01_11ea_397f_e69a_4b1b_a7b6_434b_acd7_6477_4b84_f385_12bf_6730_d2a0_f6b0_f624_1eab_fffe_b153_ffffint;
    let low = u[0] as int + m * (MODULUS[0] as int);
    assert(value7(v) == v[0] as int + w * vh);
    assert(value7(u) == u[0] as int + w * uh);
    assert(modulus() == MODULUS[0] as int + w * ph);
    assert(m * modulus() == m * (MODULUS[0] as int) + w * (m * ph)) by (nonlinear_arith)
        requires
            modulus() == MODULUS[0] as int + w * ph,
    ;
    assert(v[0] as int + w * vh == low + w * (uh + m * ph));
    let k = low / w;
    assert(low == w * k);
    assert(v[0] as int == w * (k + uh + m * ph - vh));
    if k + uh + m * ph - vh >= 1 {
        assert(w * (k + uh + m * ph - vh) >= w);
    }
    if k + uh + m * ph - vh <= -1 {
        assert(w * (k + uh + m * ph - vh) <= -w);
    }
}

/// One round of Montgomery multiplication: adds `x * b` and a multiple of the
/// modulus to `t`, and divides by `2^64`.
pub fn mont_round(t: [u64; 7], x: u64, b: [u64; 6]) -> (r: ([u64; 7], u64))
    requires
        value7(t) < 2 * modulus(),
        value6(b) < modulus(),
    ensures
        value7(r.0) * 0x1_0000_0000_0000_0000 == value7(t) + x as int * value6(b) + r.1 as int
            * modulus(),
        value7(r.0) < 2 * modulus(),
{
    proof {
        assert(0 <= x as int * value6(b) <= 0xffff_ffff_ffff_ffff * (modulus() - 1))
            by (nonlinear_arith)
            requires
                0 <= x <= 0xffff_ffff_ffff_ffff,
                0 <= value6(b) <= modulus() - 1,
        ;
    }
    let u = mul_add_row(t, x, b);
    let m = mul_low(u[0], INV);
    proof {
        lemma_constants();
    }
    let v = mul_add_row(u, m, MODULUS);
    proof {
        lemma_low_limb_clears(u[0] as int, m as int);
        lemma_low_limb_zero(v, u, m as int);
    }
    let r = [v[1], v[2], v[3], v[4], v[5], v[6], 0];
    assert(value7(r) * 0x1_0000_0000_0000_0000 == value7(v));
    (r, m)
}

/// The Montgomery product: a number below the modulus that, times the radix,
/// is congruent to `a * b`.
pub fn mont_mul(a: [u64; 6], b: [u64; 6]) -> (r: [u64; 6])
    requires
        value6(a) < modulus(),
        value6(b) < modulus(),
    ensures
        value6(r) < modulus(),
        (value6(r) * radix()) % modulus() == (value6(a) * value6(b)) % modulus(),
{
    let (t1, m1) = mont_round([0, 0, 0, 0, 0, 0, 0], a[0], b);
    let (t2, m2) = mont_round(t1, a[1], b);
    let (t3, m3) = mont_round(t2, a[2], b);
    let (t4, m4) = mont_round(t3, a[3], b);
    let (t5, m5) = mont_round(t4, a[4], b);
    let (t6, m6) = mont_round(t5, a[5], b);
    let lo = [t6[0], t6[1], t6[2], t6[3], t6[4], t6[5]];
    proof {
        lemma_constants();
        assert(t6[6] == 0);
        assert(value6(lo) == value7(t6));
    }
    let (d, borrow) = sub6(lo, MODULUS);
    let r = select6(d, lo, borrow as u8);
    proof {
        let bv = value6(b);
        let k = m1 as int + m2 as int * 0x1_0000_0000_0000_0000 + m3 as int
            * 0x1_0000_0000_0000_0000_0000_0000_0000_0000 + m4 as int
            * 0x1_0000_0000_0000_0000_0000_0000_0000_0000_0000_0000_0000_0000 + m5 as int
            * 0x1_0000_0000_0000_0000_0000_0000_0000_0000_0000_0000_0000_0000_0000_0000_0000_0000
            + m6 as int
            * 0x1_0000_0000_0000_0000_0000_0000_0000_0000_0000_0000_0000_0000_0000_0000_0000_0000_0000_0000_0000_0000;
        let s = a[0] as int * bv + (a[1] as int * bv) * 0x1_0000_0000_0000_0000 + (a[2] as int
            * bv) * 0x1_0000_0000_0000_0000_0000_0000_0000_0000 + (a[3] as int * bv)
            * 0x1_0000_0000_0000_0000_0000_0000_0000_0000_0000_0000_0000_0000 + (a[4] as int * bv)
            * 0x1_0000_0000_0000_0000_0000_0000_0000_0000_0000_0000_0000_0000_0000_0000_0000_0000
            + (a[5] as int * bv)
            * 0x1_0000_0000_0000_0000_0000_0000_0000_0000_0000_0000_0000_0000_0000_0000_0000_0000_0000_0000_0000_0000;
        assert(value7(t2) * 0x1_0000_0000_0000_0000_0000_0000_0000_0000 == a[0] as int * bv + (
        a[1] as int * bv) * 0x1_0000_0000_0000_0000 + (m1 as int + m2 as int
            * 0x1_0000_0000_0000_0000) * modulus());
        assert(value7(t4)
            * 0x1_0000_0000_0000_0000_0000_0000_0000_0000_0000_0000_0000_0000_0000_0000_0000_0000
            == a[0] as int * bv + (a[1] as int * bv) * 0x1_0000_0000_0000_0000 + (a[2] as int
            * bv) * 0x1_0000_0000_0000_0000_0000_0000_0000_0000 + (a[3] as int * bv)
            * 0x1_0000_0000_0000_0000_0000_0000_0000_0000_0000_0000_0000_0000 + (m1 as int
            + m2 as int * 0x1_0000_0000_0000_0000 + m3 as int
            * 0x1_0000_0000_0000_0000_0000_0000_0000_0000 + m4 as int
            * 0x1_0000_0000_0000_0000_0000_0000_0000_0000_0000_0000_0000_0000) * modulus());
        assert(value7(t6) * radix() == s + k * modulus());
        crate::limbs::lemma_scale6(
            bv,
            a[0] as int,
            a[1] as int,
            a[2] as int,
            a[3] as int,
            a[4] as int,
            a[5] as int,
        );
        assert(value6(a) * bv == s) by (nonlinear_arith)
            requires
                bv * value6(a) == s,
        ;
        let e: int = if borrow == 0 {
            k - radix()
        } else {
            k
        };
        assert(value6(r) * radix() == value6(a) * bv + e * modulus());
        vstd::arithmetic::div_mod::lemma_mod_multiples_vanish(e, value6(a) * bv, modulus());
        assert(modulus() * e == e * modulus());
    }
    r
}

} // verus!
