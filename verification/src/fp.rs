//! The base field: integers modulo the 381-bit prime, held in Montgomery form.
use crate::limbs::{add6, eq6, lemma_top_bits_step, select6, sub6, top_bits, value6};
use crate::modular::{
    fp_add, fp_canonical, fp_inv, fp_mul, fp_neg, fp_pow, fp_sub, lemma_cancel_radix,
    lemma_fp_inv_zero, lemma_fp_pow_add, lemma_mul_congruent, lemma_scale_linear,
};
use crate::montgomery::{lemma_constants, modulus, mont_mul, radix, radix_inv, MODULUS};
use vstd::arithmetic::div_mod::lemma_mul_mod_noop_general;
use vstd::arithmetic::power2::{lemma2_to64, lemma_pow2_unfold, pow2};
use vstd::prelude::*;

verus! {

/// The radix modulo the modulus: the limbs that stand for one.
pub const R: [u64; 6] = [
    0x7609_0000_0002_fffd,
    0xebf4_000b_c40c_0002,
    0x5f48_9857_53c7_58ba,
    0x77ce_5853_7052_5745,
    0x5c07_1a97_a256_ec6d,
    0x15f6_5ec3_fa80_e493,
];

/// The square of the radix modulo the modulus.
pub const R2: [u64; 6] = [
    0xf4df_1f34_1c34_1746,
    0x0a76_e6a6_09d1_04f1,
    0x8de5_476c_4c95_b6d5,
    0x67eb_88a9_939d_83c0,
    0x9a79_3e85_b519_952d,
    0x1198_8fe5_92ca_e3aa,
];

/// The modulus less two, the exponent that inverts.
pub const MODULUS_MINUS_TWO: [u64; 6] = [
    0xb9fe_ffff_ffff_aaa9,
    0x1eab_fffe_b153_ffff,
    0x6730_d2a0_f6b0_f624,
    0x6477_4b84_f385_12bf,
    0x4b1b_a7b6_434b_acd7,
    0x1a01_11ea_397f_e69a,
];

/// An element of the base field.
#[derive(Clone, Copy, Debug, PartialEq, Eq)]
pub struct Fp {
    limbs: [u64; 6],
}

impl View for Fp {
    type V = int;

    /// The residue that the element stands for.
    closed spec fn view(&self) -> int {
        (value6(self.limbs) * radix_inv()) % modulus()
    }
}

/// Distinct numbers below the modulus stand for distinct residues.
proof fn lemma_view_injective(x: int, y: int)
    requires
        0 <= x < modulus(),
        0 <= y < modulus(),
        (x * radix_inv()) % modulus() == (y * radix_inv()) % modulus(),
    ensures
        x == y,
{
    lemma_constants();
    lemma_mul_congruent(x * radix_inv(), y * radix_inv(), radix(), radix());
    assert((x * radix_inv()) * radix() == x * (radix() * radix_inv())) by (nonlinear_arith);
    assert((y * radix_inv()) * radix() == y * (radix() * radix_inv())) by (nonlinear_arith);
    lemma_mul_congruent(x, x, radix() * radix_inv(), 1);
    lemma_mul_congruent(y, y, radix() * radix_inv(), 1);
    assert(x * 1 == x && y * 1 == y);
}

impl Fp {
    #[verifier::type_invariant]
    spec fn reduced(self) -> bool {
        value6(self.limbs) < modulus()
    }

    /// The view of an element is a canonical residue.
    pub proof fn lemma_canonical(self)
        ensures
            fp_canonical(self@),
    {
    }

    /// The additive identity.
    pub fn zero() -> (r: Fp)
        ensures
            r@ == 0,
    {
        Fp { limbs: [0, 0, 0, 0, 0, 0] }
    }

    /// The multiplicative identity.
    pub fn one() -> (r: Fp)
        ensures
            r@ == 1,
    {
        proof {
            lemma_constants();
        }
        Fp { limbs: R }
    }

    /// The element that stands for the number held by six little-endian
    /// limbs, if that number is below the modulus.
    pub fn from_limbs(limbs: [u64; 6]) -> (r: Option<Fp>)
        ensures
            match r {
                Some(x) => value6(limbs) < modulus() && x@ == value6(limbs),
                None => value6(limbs) >= modulus(),
            },
    {
        proof {
            lemma_constants();
        }
        let (d, borrow) = sub6(limbs, MODULUS);
        if borrow == 0 {
            None
        } else {
            let t = mont_mul(limbs, R2);
            proof {
                let l = value6(limbs);
                lemma_cancel_radix(value6(t), l * value6(R2));
                lemma_mul_congruent(
                    value6(t),
                    (l * value6(R2)) * radix_inv(),
                    radix_inv(),
                    radix_inv(),
                );
                assert(((l * value6(R2)) * radix_inv()) * radix_inv() == l * ((value6(R2)
                    * radix_inv()) * radix_inv())) by (nonlinear_arith);
                assert(((value6(R2) * radix_inv()) * radix_inv()) % modulus() == 1);
                lemma_mul_congruent(l, l, (value6(R2) * radix_inv()) * radix_inv(), 1);
                assert(l * 1 == l);
            }
            Some(Fp { limbs: t })
        }
    }

    /// The six little-endian limbs of the residue.
    pub fn to_limbs(&self) -> (r: [u64; 6])
        ensures
            value6(r) == self@,
    {
        proof {
            use_type_invariant(self);
        }
        let t = mont_mul(self.limbs, [1, 0, 0, 0, 0, 0]);
        proof {
            assert(value6(self.limbs) * 1 == value6(self.limbs));
            lemma_cancel_radix(value6(t), value6(self.limbs));
        }
        t
    }

    /// Whether the element is zero.
    pub fn is_zero(&self) -> (r: bool)
        ensures
            r == (self@ == 0),
    {
        proof {
            use_type_invariant(self);
            if self@ == 0 {
                assert(0 * radix_inv() == 0);
                lemma_view_injective(value6(self.limbs), 0);
            }
        }
        eq6(self.limbs, [0, 0, 0, 0, 0, 0])
    }

    /// Whether two elements are the same residue.
    pub fn equals(&self, rhs: &Fp) -> (r: bool)
        ensures
            r == (self@ == rhs@),
    {
        proof {
            use_type_invariant(self);
            use_type_invariant(rhs);
            if self@ == rhs@ {
                lemma_view_injective(value6(self.limbs), value6(rhs.limbs));
            }
        }
        eq6(self.limbs, rhs.limbs)
    }

    /// The sum of two elements, without a branch on them.
    pub fn add(&self, rhs: &Fp) -> (r: Fp)
        ensures
            r@ == fp_add(self@, rhs@),
    {
        proof {
            use_type_invariant(self);
            use_type_invariant(rhs);
            lemma_constants();
        }
        let (s, carry) = add6(self.limbs, rhs.limbs);
        let (d, borrow) = sub6(s, MODULUS);
        let limbs = select6(d, s, borrow as u8);
        proof {
            let e: int = if borrow == 0 {
                -1
            } else {
                0
            };
            lemma_scale_linear(
                value6(limbs),
                value6(self.limbs),
                value6(rhs.limbs),
                e,
                radix_inv(),
            );
        }
        Fp { limbs }
    }

    /// The difference of two elements, without a branch on them.
    pub fn sub(&self, rhs: &Fp) -> (r: Fp)
        ensures
            r@ == fp_sub(self@, rhs@),
    {
        proof {
            use_type_invariant(self);
            use_type_invariant(rhs);
            lemma_constants();
        }
        let (d, borrow) = sub6(self.limbs, rhs.limbs);
        let (s, carry) = add6(d, MODULUS);
        let limbs = select6(d, s, borrow as u8);
        proof {
            let e: int = if borrow == 0 {
                0
            } else {
                1
            };
            lemma_scale_linear(
                value6(limbs),
                value6(self.limbs),
                value6(rhs.limbs),
                e,
                radix_inv(),
            );
        }
        Fp { limbs }
    }

    /// The additive inverse.
    pub fn neg(&self) -> (r: Fp)
        ensures
            r@ == fp_neg(self@),
    {
        Fp::zero().sub(self)
    }

    /// Twice the element.
    pub fn double(&self) -> (r: Fp)
        ensures
            r@ == fp_add(self@, self@),
    {
        self.add(self)
    }

    /// The product of two elements, without a branch on them.
    pub fn mul(&self, rhs: &Fp) -> (r: Fp)
        ensures
            r@ == fp_mul(self@, rhs@),
    {
        proof {
            use_type_invariant(self);
            use_type_invariant(rhs);
        }
        let t = mont_mul(self.limbs, rhs.limbs);
        proof {
            let x = value6(self.limbs);
            let y = value6(rhs.limbs);
            lemma_cancel_radix(value6(t), x * y);
            lemma_mul_congruent(value6(t), (x * y) * radix_inv(), radix_inv(), radix_inv());
            assert(((x * y) * radix_inv()) * radix_inv() == (x * radix_inv()) * (y * radix_inv()))
                by (nonlinear_arith);
            lemma_mul_mod_noop_general(x * radix_inv(), y * radix_inv(), modulus());
        }
        Fp { limbs: t }
    }

    /// The square of the element.
    pub fn square(&self) -> (r: Fp)
        ensures
            r@ == fp_mul(self@, self@),
    {
        self.mul(self)
    }

    /// Raises `acc`, a power of `self`, to the power `2^64` and multiplies it
    /// by the power of `self` that the limb `e` gives.
    fn pow_limb(&self, acc: Fp, e: u64, Ghost(n): Ghost<nat>) -> (r: Fp)
        requires
            acc@ == fp_pow(self@, n),
        ensures
            r@ == fp_pow(self@, (n * 0x1_0000_0000_0000_0000 + e) as nat),
    {
        let mut acc = acc;
        let mut j: u64 = 64;
        let ghost mut m: nat = n;
        let ghost mut c: nat = 1;
        proof {
            lemma2_to64();
            assert(n * 1 == n) by (nonlinear_arith);
        }
        while j > 0
            invariant
                j <= 64,
                c == pow2((64 - j) as nat),
                m == n * c + top_bits(e, j as int),
                acc@ == fp_pow(self@, m),
            decreases j,
        {
            j = j - 1;
            acc = acc.square();
            proof {
                lemma_fp_pow_add(self@, m, m);
                lemma_top_bits_step(e, j);
                lemma_pow2_unfold((64 - j) as nat);
                assert(n * (2 * c) == 2 * (n * c)) by (nonlinear_arith);
            }
            if (e >> j) & 1 == 1 {
                acc = acc.mul(self);
                proof {
                    m = 2 * m + 1;
                }
            } else {
                proof {
                    m = 2 * m;
                }
            }
            proof {
                c = 2 * c;
            }
        }
        proof {
            lemma_top_bits_step(e, 0);
            lemma2_to64();
        }
        acc
    }

    /// The power of the element by the exponent that six little-endian limbs
    /// hold. The steps taken depend on the exponent, not on the element.
    pub fn pow(&self, exp: [u64; 6]) -> (r: Fp)
        ensures
            r@ == fp_pow(self@, value6(exp) as nat),
    {
        let a5 = self.pow_limb(Fp::one(), exp[5], Ghost(0));
        let ghost n5 = exp[5] as nat;
        let a4 = self.pow_limb(a5, exp[4], Ghost(n5));
        let ghost n4 = (n5 * 0x1_0000_0000_0000_0000 + exp[4]) as nat;
        let a3 = self.pow_limb(a4, exp[3], Ghost(n4));
        let ghost n3 = (n4 * 0x1_0000_0000_0000_0000 + exp[3]) as nat;
        let a2 = self.pow_limb(a3, exp[2], Ghost(n3));
        let ghost n2 = (n3 * 0x1_0000_0000_0000_0000 + exp[2]) as nat;
        let a1 = self.pow_limb(a2, exp[1], Ghost(n2));
        let ghost n1 = (n2 * 0x1_0000_0000_0000_0000 + exp[1]) as nat;
        let a0 = self.pow_limb(a1, exp[0], Ghost(n1));
        assert((n1 * 0x1_0000_0000_0000_0000 + exp[0]) as nat == value6(exp) as nat);
        a0
    }

    /// The power `p - 2` of the element: zero for zero, and the inverse of
    /// any other element.
    pub fn inverse_power(&self) -> (r: Fp)
        ensures
            r@ == fp_inv(self@),
            self@ == 0 ==> r@ == 0,
    {
        proof {
            lemma_fp_inv_zero();
            lemma_constants();
            assert(value6(MODULUS_MINUS_TWO) == modulus() - 2);
        }
        self.pow(MODULUS_MINUS_TWO)
    }

    /// The multiplicative inverse, by the power `p - 2`; none for zero.
    pub fn invert(&self) -> (r: Option<Fp>)
        ensures
            match r {
                Some(x) => self@ != 0 && x@ == fp_inv(self@),
                None => self@ == 0,
            },
    {
        if self.is_zero() {
            None
        } else {
            Some(self.inverse_power())
        }
    }
}

} // verus!
