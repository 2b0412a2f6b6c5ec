//! The target field: the quadratic extension of the cubic extension by a
//! square root `w` of `v`.
use crate::fp2::{Fp2, Fp2Val};
use crate::fp6::{
    fp6_add, fp6_embed, fp6_mul, fp6_mul_by_nonresidue, fp6_one, fp6_sparse_01, fp6_zero, Fp6,
    Fp6Val,
};
use crate::limbs::{lemma_top_bits_step, top_bits, value6};
use crate::montgomery::radix;
use vstd::arithmetic::power2::{lemma2_to64, lemma_pow2_unfold, pow2};
use vstd::prelude::*;

verus! {

/// An element `c0 + c1 w` of the target field.
pub struct Fp12Val {
    pub c0: Fp6Val,
    pub c1: Fp6Val,
}

/// Zero of the target field.
pub open spec fn fp12_zero() -> Fp12Val {
    Fp12Val { c0: fp6_zero(), c1: fp6_zero() }
}

/// One of the target field.
pub open spec fn fp12_one() -> Fp12Val {
    Fp12Val { c0: fp6_one(), c1: fp6_zero() }
}

/// Product in the target field, where `w^2 = v`.
#[verifier::opaque]
pub open spec fn fp12_mul(a: Fp12Val, b: Fp12Val) -> Fp12Val {
    Fp12Val {
        c0: fp6_add(fp6_mul(a.c0, b.c0), fp6_mul_by_nonresidue(fp6_mul(a.c1, b.c1))),
        c1: fp6_add(fp6_mul(a.c0, b.c1), fp6_mul(a.c1, b.c0)),
    }
}

/// Square in the target field.
pub open spec fn fp12_square(a: Fp12Val) -> Fp12Val {
    fp12_mul(a, a)
}

/// The `n`-th power in the target field, by squaring and multiplying along
/// the binary digits of `n`.
pub open spec fn fp12_pow(a: Fp12Val, n: nat) -> Fp12Val
    decreases n,
{
    if n == 0 {
        fp12_one()
    } else {
        let half = fp12_pow(a, n / 2);
        if n % 2 == 1 {
            fp12_mul(fp12_square(half), a)
        } else {
            fp12_square(half)
        }
    }
}

/// The square of one is one.
pub proof fn lemma_fp12_one_squared()
    ensures
        fp12_square(fp12_one()) == fp12_one(),
{
    reveal(fp12_mul);
    crate::fp6::lemma_fp6_mul_embed(fp6_one(), crate::fp2::fp2_one());
    crate::fp6::lemma_fp6_mul_embed(fp6_zero(), crate::fp2::fp2_one());
    crate::fp6::lemma_fp6_mul_embed(fp6_one(), crate::fp2::fp2_zero());
    crate::fp6::lemma_fp6_mul_embed(fp6_zero(), crate::fp2::fp2_zero());
}

/// The power with one more binary digit `bit` appended to the exponent.
pub proof fn lemma_fp12_pow_step(a: Fp12Val, m: nat, bit: nat)
    requires
        bit <= 1,
    ensures
        fp12_pow(a, 2 * m + bit) == if bit == 1 {
            fp12_mul(fp12_square(fp12_pow(a, m)), a)
        } else {
            fp12_square(fp12_pow(a, m))
        },
{
    if 2 * m + bit == 0 {
        lemma_fp12_one_squared();
    } else {
        assert((2 * m + bit) / 2 == m);
    }
}

/// The element `c0 + (c3 + c4 v) w`: of its six coefficients over the
/// quadratic extension, all but those in places 0, 3 and 4 are zero.
pub open spec fn fp12_sparse_034(c0: Fp2Val, c3: Fp2Val, c4: Fp2Val) -> Fp12Val {
    Fp12Val { c0: fp6_embed(c0), c1: fp6_sparse_01(c3, c4) }
}

/// An element of the target field.
#[derive(Clone, Copy, Debug, PartialEq, Eq)]
pub struct Fp12 {
    pub c0: Fp6,
    pub c1: Fp6,
}

impl View for Fp12 {
    type V = Fp12Val;

    open spec fn view(&self) -> Fp12Val {
        Fp12Val { c0: self.c0@, c1: self.c1@ }
    }
}

impl Fp12 {
    /// The additive identity.
    pub fn zero() -> (r: Fp12)
        ensures
            r@ == fp12_zero(),
    {
        Fp12 { c0: Fp6::zero(), c1: Fp6::zero() }
    }

    /// The multiplicative identity.
    pub fn one() -> (r: Fp12)
        ensures
            r@ == fp12_one(),
    {
        Fp12 { c0: Fp6::one(), c1: Fp6::zero() }
    }

    /// Whether two elements are equal.
    pub fn equals(&self, rhs: &Fp12) -> (r: bool)
        ensures
            r == (self@ == rhs@),
    {
        self.c0.equals(&rhs.c0) && self.c1.equals(&rhs.c1)
    }

    /// The product of two elements.
    pub fn mul(&self, rhs: &Fp12) -> (r: Fp12)
        ensures
            r@ == fp12_mul(self@, rhs@),
    {
        reveal(fp12_mul);
        let c0 = self.c0.mul(&rhs.c0).add(&self.c1.mul(&rhs.c1).mul_by_nonresidue());
        let c1 = self.c0.mul(&rhs.c1).add(&self.c1.mul(&rhs.c0));
        Fp12 { c0, c1 }
    }

    /// The square of the element.
    pub fn square(&self) -> (r: Fp12)
        ensures
            r@ == fp12_square(self@),
    {
        self.mul(self)
    }

    /// Raises `acc`, a power of `self`, to the power `2^64` and multiplies it
    /// by the power of `self` that the limb `e` gives.
    pub(crate) fn pow_limb(&self, acc: Fp12, e: u64, Ghost(n): Ghost<nat>) -> (r: Fp12)
        requires
            acc@ == fp12_pow(self@, n),
        ensures
            r@ == fp12_pow(self@, (n * 0x1_0000_0000_0000_0000 + e) as nat),
    {
        let mut acc = acc;
        let mut j: u64 = 64;
        let ghost mut m: nat = n;
        let ghost mut c: nat = 1;
        proof {
            lemma2_to64();
            assert(n * 1 == n) by (nonlinear_arith);
        }
        while j > 0
            invariant
                j <= 64,
                c == pow2((64 - j) as nat),
                m == n * c + top_bits(e, j as int),
                acc@ == fp12_pow(self@, m),
            decreases j,
        {
            j = j - 1;
            acc = acc.square();
            proof {
                lemma_top_bits_step(e, j);
                lemma_pow2_unfold((64 - j) as nat);
                assert(n * (2 * c) == 2 * (n * c)) by (nonlinear_arith);
                lemma_fp12_pow_step(self@, m, ((e >> j) & 1) as nat);
            }
            if (e >> j) & 1 == 1 {
                acc = acc.mul(self);
                proof {
                    m = 2 * m + 1;
                }
            } else {
                proof {
                    m = 2 * m;
                }
            }
            proof {
                c = 2 * c;
            }
        }
        proof {
            lemma_top_bits_step(e, 0);
            lemma2_to64();
        }
        acc
    }

    /// Raises `acc`, a power of `self`, to the power `2^384` and multiplies it
    /// by the power of `self` that the six limbs of `exp` give.
    pub(crate) fn pow_chunk(&self, acc: Fp12, exp: [u64; 6], Ghost(n): Ghost<nat>) -> (r: Fp12)
        requires
            acc@ == fp12_pow(self@, n),
        ensures
            r@ == fp12_pow(self@, (n * radix() + value6(exp)) as nat),
    {
        let a5 = self.pow_limb(acc, exp[5], Ghost(n));
        let ghost n5 = (n * 0x1_0000_0000_0000_0000 + exp[5]) as nat;
        let a4 = self.pow_limb(a5, exp[4], Ghost(n5));
        let ghost n4 = (n5 * 0x1_0000_0000_0000_0000 + exp[4]) as nat;
        let a3 = self.pow_limb(a4, exp[3], Ghost(n4));
        let ghost n3 = (n4 * 0x1_0000_0000_0000_0000 + exp[3]) as nat;
        let a2 = self.pow_limb(a3, exp[2], Ghost(n3));
        let ghost n2 = (n3 * 0x1_0000_0000_0000_0000 + exp[2]) as nat;
        let a1 = self.pow_limb(a2, exp[1], Ghost(n2));
        let ghost n1 = (n2 * 0x1_0000_0000_0000_0000 + exp[1]) as nat;
        let a0 = self.pow_limb(a1, exp[0], Ghost(n1));
        assert((n1 * 0x1_0000_0000_0000_0000 + exp[0]) as nat == (n * radix() + value6(exp)) as nat);
        a0
    }

    /// The power of the element by the exponent that six little-endian limbs
    /// hold.
    pub fn pow(&self, exp: [u64; 6]) -> (r: Fp12)
        ensures
            r@ == fp12_pow(self@, value6(exp) as nat),
    {
        self.pow_chunk(Fp12::one(), exp, Ghost(0))
    }

    /// Multiplies the element by `c0 + (c3 + c4 v) w`, with the result of the
    /// full product by that element and fewer multiplications.
    pub fn mul_by_034(&mut self, c0: &Fp2, c3: &Fp2, c4: &Fp2)
        ensures
            final(self)@ == fp12_mul(old(self)@, fp12_sparse_034(c0@, c3@, c4@)),
    {
        reveal(fp12_mul);
        let a = self.c0.scale(c0);
        let b = self.c1.mul_by_01(c3, c4);
        let e = self.c0.mul_by_01(c3, c4);
        let d = self.c1.scale(c0);
        self.c0 = a.add(&b.mul_by_nonresidue());
        self.c1 = e.add(&d);
    }
}

} // verus!
