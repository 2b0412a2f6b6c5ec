//! Word-level arithmetic on little-endian sequences of 64-bit limbs.
use crate::ct::{choice_from_u8, select_limb};
use vstd::prelude::*;

verus! {

/// The integer held by six little-endian limbs.
pub open spec fn value6(a: [u64; 6]) -> int {
    a[0] as int + a[1] as int * 0x1_0000_0000_0000_0000
        + a[2] as int * 0x1_0000_0000_0000_0000_0000_0000_0000_0000
        + a[3] as int * 0x1_0000_0000_0000_0000_0000_0000_0000_0000_0000_0000_0000_0000
        + a[4] as int
        * 0x1_0000_0000_0000_0000_0000_0000_0000_0000_0000_0000_0000_0000_0000_0000_0000_0000
        + a[5] as int
        * 0x1_0000_0000_0000_0000_0000_0000_0000_0000_0000_0000_0000_0000_0000_0000_0000_0000_0000_0000_0000_0000
}

/// The integer held by seven little-endian limbs.
pub open spec fn value7(a: [u64; 7]) -> int {
    a[0] as int + a[1] as int * 0x1_0000_0000_0000_0000
        + a[2] as int * 0x1_0000_0000_0000_0000_0000_0000_0000_0000
        + a[3] as int * 0x1_0000_0000_0000_0000_0000_0000_0000_0000_0000_0000_0000_0000
        + a[4] as int
        * 0x1_0000_0000_0000_0000_0000_0000_0000_0000_0000_0000_0000_0000_0000_0000_0000_0000
        + a[5] as int
        * 0x1_0000_0000_0000_0000_0000_0000_0000_0000_0000_0000_0000_0000_0000_0000_0000_0000_0000_0000_0000_0000
        + a[6] as int
        * 0x1_0000_0000_0000_0000_0000_0000_0000_0000_0000_0000_0000_0000_0000_0000_0000_0000_0000_0000_0000_0000_0000_0000_0000_0000
}

/// Splits a double word into its low and high limb.
pub fn split(t: u128) -> (r: (u64, u64))
    ensures
        r.0 as int + r.1 as int * 0x1_0000_0000_0000_0000 == t as int,
{
    let lo: u128 = t & 0xffff_ffff_ffff_ffff;
    let hi: u128 = t >> 64;
    assert(lo == t % 0x1_0000_0000_0000_0000 && hi == t / 0x1_0000_0000_0000_0000) by (bit_vector)
        requires
            lo == t & 0xffff_ffff_ffff_ffff,
            hi == t >> 64,
    ;
    (lo as u64, hi as u64)
}

/// `a + b + carry`, as a limb and a carry of at most one.
pub fn adc(a: u64, b: u64, carry: u64) -> (r: (u64, u64))
    requires
        carry <= 1,
    ensures
        r.0 as int + r.1 as int * 0x1_0000_0000_0000_0000 == a as int + b as int + carry as int,
        r.1 <= 1,
{
    let t: u128 = a as u128 + b as u128 + carry as u128;
    split(t)
}

/// `a - b - borrow`, as a limb and a borrow of at most one.
pub fn sbb(a: u64, b: u64, borrow: u64) -> (r: (u64, u64))
    requires
        borrow <= 1,
    ensures
        r.0 as int - r.1 as int * 0x1_0000_0000_0000_0000 == a as int - b as int - borrow as int,
        r.1 <= 1,
{
    let t: u128 = 0x1_0000_0000_0000_0000u128 + a as u128 - b as u128 - borrow as u128;
    let (lo, hi) = split(t);
    (lo, 1 - hi)
}

/// `a + b * c + carry`, as a low and a high limb.
pub fn mac(a: u64, b: u64, c: u64, carry: u64) -> (r: (u64, u64))
    ensures
        r.0 as int + r.1 as int * 0x1_0000_0000_0000_0000 == a as int + b as int * c as int
            + carry as int,
{
    assert(b as int * c as int <= 0xffff_ffff_ffff_ffff * 0xffff_ffff_ffff_ffff
        && 0 <= b as int * c as int) by (nonlinear_arith)
        requires
            0 <= b <= 0xffff_ffff_ffff_ffff,
            0 <= c <= 0xffff_ffff_ffff_ffff,
    ;
    let t: u128 = a as u128 + (b as u128) * (c as u128) + carry as u128;
    split(t)
}

/// The low limb of `a * b`.
pub fn mul_low(a: u64, b: u64) -> (r: u64)
    ensures
        r as int == (a as int * b as int) % 0x1_0000_0000_0000_0000,
{
    let (lo, hi) = mac(0, a, b, 0);
    lo
}

/// Multiplication distributes over the weighted sum of six limbs.
pub proof fn lemma_scale6(x: int, y0: int, y1: int, y2: int, y3: int, y4: int, y5: int)
    ensures
        x * (y0 + y1 * 0x1_0000_0000_0000_0000 + y2 * 0x1_0000_0000_0000_0000_0000_0000_0000_0000
            + y3 * 0x1_0000_0000_0000_0000_0000_0000_0000_0000_0000_0000_0000_0000
            + y4
            * 0x1_0000_0000_0000_0000_0000_0000_0000_0000_0000_0000_0000_0000_0000_0000_0000_0000
            + y5
            * 0x1_0000_0000_0000_0000_0000_0000_0000_0000_0000_0000_0000_0000_0000_0000_0000_0000_0000_0000_0000_0000)
            == x * y0 + (x * y1) * 0x1_0000_0000_0000_0000 + (x * y2)
            * 0x1_0000_0000_0000_0000_0000_0000_0000_0000 + (x * y3)
            * 0x1_0000_0000_0000_0000_0000_0000_0000_0000_0000_0000_0000_0000 + (x * y4)
            * 0x1_0000_0000_0000_0000_0000_0000_0000_0000_0000_0000_0000_0000_0000_0000_0000_0000
            + (x * y5)
            * 0x1_0000_0000_0000_0000_0000_0000_0000_0000_0000_0000_0000_0000_0000_0000_0000_0000_0000_0000_0000_0000,
{
    assert(x * (y1 * 0x1_0000_0000_0000_0000) == (x * y1) * 0x1_0000_0000_0000_0000)
        by (nonlinear_arith);
    assert(x * (y2 * 0x1_0000_0000_0000_0000_0000_0000_0000_0000) == (x * y2)
        * 0x1_0000_0000_0000_0000_0000_0000_0000_0000) by (nonlinear_arith);
    assert(x * (y3 * 0x1_0000_0000_0000_0000_0000_0000_0000_0000_0000_0000_0000_0000) == (x * y3)
        * 0x1_0000_0000_0000_0000_0000_0000_0000_0000_0000_0000_0000_0000) by (nonlinear_arith);
    assert(x * (y4
        * 0x1_0000_0000_0000_0000_0000_0000_0000_0000_0000_0000_0000_0000_0000_0000_0000_0000) == (x
        * y4)
        * 0x1_0000_0000_0000_0000_0000_0000_0000_0000_0000_0000_0000_0000_0000_0000_0000_0000)
        by (nonlinear_arith);
    assert(x * (y5
        * 0x1_0000_0000_0000_0000_0000_0000_0000_0000_0000_0000_0000_0000_0000_0000_0000_0000_0000_0000_0000_0000)
        == (x * y5)
        * 0x1_0000_0000_0000_0000_0000_0000_0000_0000_0000_0000_0000_0000_0000_0000_0000_0000_0000_0000_0000_0000)
        by (nonlinear_arith);
    let t1 = y1 * 0x1_0000_0000_0000_0000;
    let t2 = y2 * 0x1_0000_0000_0000_0000_0000_0000_0000_0000;
    let t3 = y3 * 0x1_0000_0000_0000_0000_0000_0000_0000_0000_0000_0000_0000_0000;
    let t4 = y4
        * 0x1_0000_0000_0000_0000_0000_0000_0000_0000_0000_0000_0000_0000_0000_0000_0000_0000;
    let t5 = y5
        * 0x1_0000_0000_0000_0000_0000_0000_0000_0000_0000_0000_0000_0000_0000_0000_0000_0000_0000_0000_0000_0000;
    assert(x * (y0 + t1 + t2 + t3 + t4 + t5) == x * y0 + x * t1 + x * t2 + x * t3 + x * t4 + x
        * t5) by (nonlinear_arith);
}

/// `t + x * y` on limbs, where the sum fits in seven limbs.
pub fn mul_add_row(t: [u64; 7], x: u64, y: [u64; 6]) -> (r: [u64; 7])
    requires
        value7(t) + x as int * value6(y)
            < 0x1_0000_0000_0000_0000_0000_0000_0000_0000_0000_0000_0000_0000_0000_0000_0000_0000_0000_0000_0000_0000_0000_0000_0000_0000_0000_0000_0000_0000,
    ensures
        value7(r) == value7(t) + x as int * value6(y),
{
    let (r0, c0) = mac(t[0], x, y[0], 0);
    let (r1, c1) = mac(t[1], x, y[1], c0);
    let (r2, c2) = mac(t[2], x, y[2], c1);
    let (r3, c3) = mac(t[3], x, y[3], c2);
    let (r4, c4) = mac(t[4], x, y[4], c3);
    let (r5, c5) = mac(t[5], x, y[5], c4);
    let s: u128 = t[6] as u128 + c5 as u128;
    let (r6, c6) = split(s);
    let r = [r0, r1, r2, r3, r4, r5, r6];
    proof {
        lemma_scale6(
            x as int,
            y[0] as int,
            y[1] as int,
            y[2] as int,
            y[3] as int,
            y[4] as int,
            y[5] as int,
        );
        assert(value7(r) + c6 as int
            * 0x1_0000_0000_0000_0000_0000_0000_0000_0000_0000_0000_0000_0000_0000_0000_0000_0000_0000_0000_0000_0000_0000_0000_0000_0000_0000_0000_0000_0000
            == value7(t) + x as int * value6(y));
        assert(c6 == 0);
    }
    r
}

/// The sum of two six-limb numbers, with the carry out of the top limb.
pub fn add6(a: [u64; 6], b: [u64; 6]) -> (r: ([u64; 6], u64))
    ensures
        value6(r.0) + r.1 as int
            * 0x1_0000_0000_0000_0000_0000_0000_0000_0000_0000_0000_0000_0000_0000_0000_0000_0000_0000_0000_0000_0000_0000_0000_0000_0000
            == value6(a) + value6(b),
        r.1 <= 1,
{
    let (r0, c0) = adc(a[0], b[0], 0);
    let (r1, c1) = adc(a[1], b[1], c0);
    let (r2, c2) = adc(a[2], b[2], c1);
    let (r3, c3) = adc(a[3], b[3], c2);
    let (r4, c4) = adc(a[4], b[4], c3);
    let (r5, c5) = adc(a[5], b[5], c4);
    ([r0, r1, r2, r3, r4, r5], c5)
}

/// The difference of two six-limb numbers, with the borrow out of the top limb.
pub fn sub6(a: [u64; 6], b: [u64; 6]) -> (r: ([u64; 6], u64))
    ensures
        value6(r.0) - r.1 as int
            * 0x1_0000_0000_0000_0000_0000_0000_0000_0000_0000_0000_0000_0000_0000_0000_0000_0000_0000_0000_0000_0000_0000_0000_0000_0000
            == value6(a) - value6(b),
        r.1 <= 1,
{
    let (r0, c0) = sbb(a[0], b[0], 0);
    let (r1, c1) = sbb(a[1], b[1], c0);
    let (r2, c2) = sbb(a[2], b[2], c1);
    let (r3, c3) = sbb(a[3], b[3], c2);
    let (r4, c4) = sbb(a[4], b[4], c3);
    let (r5, c5) = sbb(a[5], b[5], c4);
    ([r0, r1, r2, r3, r4, r5], c5)
}

/// A number below `2^64` plus a multiple of `2^64` determines both parts.
pub proof fn lemma_split_unique(a: int, x: int, b: int, y: int)
    requires
        0 <= a < 0x1_0000_0000_0000_0000,
        0 <= b < 0x1_0000_0000_0000_0000,
        a + x * 0x1_0000_0000_0000_0000 == b + y * 0x1_0000_0000_0000_0000,
    ensures
        a == b,
        x == y,
{
    if x > y {
        assert((x - y) * 0x1_0000_0000_0000_0000 >= 0x1_0000_0000_0000_0000);
    }
    if x < y {
        assert((y - x) * 0x1_0000_0000_0000_0000 >= 0x1_0000_0000_0000_0000);
    }
}

/// Six limbs are determined by the integer they hold.
pub proof fn lemma_value6_unique(a: [u64; 6], b: [u64; 6])
    requires
        value6(a) == value6(b),
    ensures
        a[0] == b[0],
        a[1] == b[1],
        a[2] == b[2],
        a[3] == b[3],
        a[4] == b[4],
        a[5] == b[5],
{
    let a4 = a[4] as int + a[5] as int * 0x1_0000_0000_0000_0000;
    let b4 = b[4] as int + b[5] as int * 0x1_0000_0000_0000_0000;
    let a3 = a[3] as int + a4 * 0x1_0000_0000_0000_0000;
    let b3 = b[3] as int + b4 * 0x1_0000_0000_0000_0000;
    let a2 = a[2] as int + a3 * 0x1_0000_0000_0000_0000;
    let b2 = b[2] as int + b3 * 0x1_0000_0000_0000_0000;
    let a1 = a[1] as int + a2 * 0x1_0000_0000_0000_0000;
    let b1 = b[1] as int + b2 * 0x1_0000_0000_0000_0000;
    assert(value6(a) == a[0] as int + a1 * 0x1_0000_0000_0000_0000);
    assert(value6(b) == b[0] as int + b1 * 0x1_0000_0000_0000_0000);
    lemma_split_unique(a[0] as int, a1, b[0] as int, b1);
    lemma_split_unique(a[1] as int, a2, b[1] as int, b2);
    lemma_split_unique(a[2] as int, a3, b[2] as int, b3);
    lemma_split_unique(a[3] as int, a4, b[3] as int, b4);
    lemma_split_unique(a[4] as int, a[5] as int, b[4] as int, b[5] as int);
}

/// Whether two six-limb numbers are equal, found without a branch on the
/// limbs.
pub fn eq6(a: [u64; 6], b: [u64; 6]) -> (r: bool)
    ensures
        r == (value6(a) == value6(b)),
{
    proof {
        if value6(a) == value6(b) {
            lemma_value6_unique(a, b);
        }
    }
    let d0: u64 = a[0] ^ b[0];
    let d1: u64 = a[1] ^ b[1];
    let d2: u64 = a[2] ^ b[2];
    let d3: u64 = a[3] ^ b[3];
    let d4: u64 = a[4] ^ b[4];
    let d5: u64 = a[5] ^ b[5];
    let d: u64 = d0 | d1 | d2 | d3 | d4 | d5;
    proof {
        let (a0, a1, a2, a3, a4, a5) = (a[0], a[1], a[2], a[3], a[4], a[5]);
        let (b0, b1, b2, b3, b4, b5) = (b[0], b[1], b[2], b[3], b[4], b[5]);
        assert((d == 0) == (a0 == b0 && a1 == b1 && a2 == b2 && a3 == b3 && a4 == b4 && a5
            == b5)) by (bit_vector)
            requires
                d == (a0 ^ b0) | (a1 ^ b1) | (a2 ^ b2) | (a3 ^ b3) | (a4 ^ b4) | (a5 ^ b5),
        ;
    }
    d == 0
}

/// The first number where the flag is zero, the second where it is one,
/// selected without a branch on the flag.
pub fn select6(a: [u64; 6], b: [u64; 6], flag: u8) -> (r: [u64; 6])
    requires
        flag <= 1,
    ensures
        r@ == if flag == 1 {
            b@
        } else {
            a@
        },
{
    let c = choice_from_u8(flag);
    let r = [
        select_limb(a[0], b[0], c),
        select_limb(a[1], b[1], c),
        select_limb(a[2], b[2], c),
        select_limb(a[3], b[3], c),
        select_limb(a[4], b[4], c),
        select_limb(a[5], b[5], c),
    ];
    proof {
        let chosen = if flag == 1 {
            b
        } else {
            a
        };
        assert(r@ =~= chosen@);
    }
    r
}

/// The number formed by the bits of `e` from position `j` upwards.
pub open spec fn top_bits(e: u64, j: int) -> int {
    if j >= 64 {
        0
    } else {
        (e >> (j as u64)) as int
    }
}

/// Taking one more bit doubles the number formed so far and adds the bit.
pub proof fn lemma_top_bits_step(e: u64, j: u64)
    requires
        j < 64,
    ensures
        top_bits(e, j as int) == 2 * top_bits(e, j + 1) + ((e >> j) & 1) as int,
        ((e >> j) & 1) <= 1,
        top_bits(e, 0) == e as int,
{
    assert(((e >> j) & 1) <= 1) by (bit_vector);
    assert(e >> 0u64 == e) by (bit_vector);
    if j < 63 {
        let k = (j + 1) as u64;
        assert((e >> j) == 2 * (e >> k) + ((e >> j) & 1)) by (bit_vector)
            requires
                j < 63,
                k == j + 1,
        ;
    } else {
        assert((e >> 63u64) == ((e >> 63u64) & 1)) by (bit_vector);
    }
}

} // verus!
