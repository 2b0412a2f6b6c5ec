//! Arithmetic of the base field on integers: the operations modulo the prime
//! and the laws of them that the rest of the library rests on.
use crate::montgomery::{modulus, radix, radix_inv};
use vstd::arithmetic::div_mod::{
    lemma_add_mod_noop, lemma_mod_multiples_vanish, lemma_mul_mod_noop_general,
    lemma_sub_mod_noop,
};
use vstd::prelude::*;

verus! {

/// Whether `a` is a canonical residue: an integer from zero up to the modulus.
pub open spec fn fp_canonical(a: int) -> bool {
    0 <= a < modulus()
}

/// Sum in the base field.
pub open spec fn fp_add(a: int, b: int) -> int {
    (a + b) % modulus()
}

/// Difference in the base field.
pub open spec fn fp_sub(a: int, b: int) -> int {
    (a - b) % modulus()
}

/// Additive inverse in the base field.
pub open spec fn fp_neg(a: int) -> int {
    (-a) % modulus()
}

/// Product in the base field.
pub open spec fn fp_mul(a: int, b: int) -> int {
    (a * b) % modulus()
}

/// The `n`-th power in the base field.
pub open spec fn fp_pow(a: int, n: nat) -> int
    decreases n,
{
    if n == 0 {
        1
    } else {
        fp_mul(fp_pow(a, (n - 1) as nat), a)
    }
}

/// The power `a^(p - 2)`. It is zero at zero; at every other residue it is the
/// inverse by Fermat's little theorem, which rests on the modulus being prime
/// and is not proved here.
pub open spec fn fp_inv(a: int) -> int {
    fp_pow(a, (modulus() - 2) as nat)
}

/// Multiplication in the base field is associative.
pub proof fn lemma_fp_mul_assoc(a: int, b: int, c: int)
    ensures
        fp_mul(fp_mul(a, b), c) == fp_mul(a, fp_mul(b, c)),
{
    lemma_mul_mod_noop_general(a * b, c, modulus());
    lemma_mul_mod_noop_general(a, b * c, modulus());
    assert((a * b) * c == a * (b * c)) by (nonlinear_arith);
}

/// Powers are canonical residues.
pub proof fn lemma_fp_pow_canonical(a: int, n: nat)
    ensures
        fp_canonical(fp_pow(a, n)),
    decreases n,
{
    if n > 0 {
        lemma_fp_pow_canonical(a, (n - 1) as nat);
    }
}

/// Exponents add when powers are multiplied.
pub proof fn lemma_fp_pow_add(a: int, m: nat, n: nat)
    ensures
        fp_pow(a, m + n) == fp_mul(fp_pow(a, m), fp_pow(a, n)),
    decreases n,
{
    if n == 0 {
        lemma_fp_pow_canonical(a, m);
        assert(fp_pow(a, m) * 1 == fp_pow(a, m));
    } else {
        lemma_fp_pow_add(a, m, (n - 1) as nat);
        lemma_fp_mul_assoc(fp_pow(a, m), fp_pow(a, (n - 1) as nat), a);
        assert((m + n - 1) as nat == m + (n - 1) as nat);
    }
}

/// The inverting power of zero is zero.
pub proof fn lemma_fp_inv_zero()
    ensures
        fp_inv(0) == 0,
{
    assert(fp_pow(0, (modulus() - 3) as nat) * 0 == 0);
}

/// The negative of a difference is the difference the other way round.
pub proof fn lemma_fp_neg_sub(a: int, b: int)
    ensures
        fp_neg(fp_sub(a, b)) == fp_sub(b, a),
{
}

/// Congruent factors give congruent products.
pub proof fn lemma_mul_congruent(a: int, b: int, c: int, d: int)
    requires
        a % modulus() == b % modulus(),
        c % modulus() == d % modulus(),
    ensures
        (a * c) % modulus() == (b * d) % modulus(),
{
    lemma_mul_mod_noop_general(a, c, modulus());
    lemma_mul_mod_noop_general(b, d, modulus());
}

/// A congruence times the radix can be divided by the radix.
pub proof fn lemma_cancel_radix(t: int, z: int)
    requires
        (t * radix()) % modulus() == z % modulus(),
    ensures
        t % modulus() == (z * radix_inv()) % modulus(),
{
    lemma_mul_congruent(t * radix(), z, radix_inv(), radix_inv());
    assert((t * radix()) * radix_inv() == t * (radix() * radix_inv())) by (nonlinear_arith);
    assert((radix() * radix_inv()) % modulus() == 1);
    lemma_mul_congruent(t, t, radix() * radix_inv(), 1);
    assert(t * 1 == t);
}

/// Scaling by a constant commutes with sums and differences up to multiples
/// of the modulus.
pub proof fn lemma_scale_linear(s: int, x: int, y: int, d: int, k: int)
    ensures
        s == x + y + d * modulus() ==> (s * k) % modulus() == fp_add(
            (x * k) % modulus(),
            (y * k) % modulus(),
        ),
        s == x - y + d * modulus() ==> (s * k) % modulus() == fp_sub(
            (x * k) % modulus(),
            (y * k) % modulus(),
        ),
{
    if s == x + y + d * modulus() {
        assert(s * k == modulus() * (d * k) + (x * k + y * k)) by (nonlinear_arith)
            requires
                s == x + y + d * modulus(),
        ;
        lemma_mod_multiples_vanish(d * k, x * k + y * k, modulus());
        lemma_add_mod_noop(x * k, y * k, modulus());
    }
    if s == x - y + d * modulus() {
        assert(s * k == modulus() * (d * k) + (x * k - y * k)) by (nonlinear_arith)
            requires
                s == x - y + d * modulus(),
        ;
        lemma_mod_multiples_vanish(d * k, x * k - y * k, modulus());
        lemma_sub_mod_noop(x * k, y * k, modulus());
    }
}

} // verus!
