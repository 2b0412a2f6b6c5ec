//! The loop driver: a double-and-add sweep over the signed digits of the loop
//! exponent, then three additions of Frobenius-corrected copies of the twist
//! input.
use crate::curve::{G1Affine, G1Val, G2Affine, G2Val};
use crate::fp::Fp;
use crate::fp12::{fp12_one, fp12_square, Fp12, Fp12Val};
use crate::fp2::{fp2_mul, Fp2, Fp2Val};
use crate::limbs::value6;
use crate::line::{add_eval, add_eval_state, double_eval, double_eval_state, MillerState};
use crate::montgomery::modulus;
use crate::steps::{can_add, can_double};
use vstd::prelude::*;

verus! {

/// The signed digits of the loop exponent, in the order in which the sweep
/// takes them.
pub const SIX_U_PLUS_2_NAF: [i8; 65] = [
    0, 0, 0, 1, 0, 1, 0, -1, 0, 0, 1, -1, 0, 0, 1, 0, 0, 1, 1, 0, -1, 0, 0, 1, 0, -1, 0, 0, 0, 0,
    1, 1, 1, 0, 0, -1, 0, 0, 1, 0, 0, 0, 0, 0, -1, 0, 0, 1, 1, 0, 0, -1, 0, 0, 0, 1, 1, 0, -1, 0,
    0, 1, 0, 1, 1,
];

/// The number of digits of the loop exponent.
pub const DIGITS: usize = 65;

/// The number of Frobenius corrections.
pub const CORRECTIONS: usize = 3;

/// The limbs of the residue that both coefficients of every Frobenius
/// constant are made of.
pub const FROBENIUS_LIMBS: [u64; 6] = [
    0xf4d3_8259_380b_4820,
    0x7fe1_1274_d898_fafb,
    0x343e_a979_1495_6dc8,
    0x1797_ab14_58a8_8de9,
    0xed5e_6427_3c4f_538b,
    0x14fe_c701_e8fb_0ce9,
];

/// The residue that both coefficients of every Frobenius constant are made of.
pub open spec fn frobenius_residue() -> int {
    0x14fec701e8fb0ce9ed5e64273c4f538b1797ab1458a88de9343ea97914956dc87fe11274d898fafbf4d38259380b4820int
}

/// The `k`-th Frobenius constant: `c + c u` for the middle one, `c - c u` for
/// the first and the last.
pub open spec fn frobenius_coeff(k: int) -> Fp2Val {
    Fp2Val {
        c0: frobenius_residue(),
        c1: if k == 1 {
            frobenius_residue()
        } else {
            modulus() - frobenius_residue()
        },
    }
}

/// The twist input with both coordinates multiplied by the `k`-th Frobenius
/// constant.
pub open spec fn corrected_point(q: G2Val, k: int) -> G2Val {
    G2Val { x: fp2_mul(q.x, frobenius_coeff(k)), y: fp2_mul(q.y, frobenius_coeff(k)) }
}

/// Whether the `i`-th digit calls for an addition step.
pub open spec fn digit_adds(i: int) -> bool {
    SIX_U_PLUS_2_NAF[i] == 1 || SIX_U_PLUS_2_NAF[i] == -1
}

/// The state after the step for the `i`-th digit, or none where the step
/// meets a point that has no slope.
#[verifier::opaque]
pub open spec fn digit_step(s: MillerState, i: int, p: G1Val, q: G2Val) -> Option<MillerState> {
    let squared = MillerState {
        f: if i == 0 {
            s.f
        } else {
            fp12_square(s.f)
        },
        acc: s.acc,
    };
    if !can_double(squared.acc) {
        None
    } else {
        let doubled = double_eval_state(squared, p);
        if !digit_adds(i) {
            Some(doubled)
        } else if !can_add(doubled.acc, q) {
            None
        } else {
            Some(add_eval_state(doubled, q, p, SIX_U_PLUS_2_NAF[i] == -1))
        }
    }
}

/// The state after the first `n` digits, starting from the product one and
/// the accumulator `q`.
pub open spec fn sweep(p: G1Val, q: G2Val, n: nat) -> Option<MillerState>
    decreases n,
{
    if n == 0 {
        Some(MillerState { f: fp12_one(), acc: q })
    } else {
        match sweep(p, q, (n - 1) as nat) {
            Some(s) => digit_step(s, n - 1, p, q),
            None => None,
        }
    }
}

/// The state after the `k`-th correction, or none where it meets a point that
/// has no slope.
#[verifier::opaque]
pub open spec fn correction_step(s: MillerState, k: int, p: G1Val, q: G2Val) -> Option<
    MillerState,
> {
    if !can_add(s.acc, corrected_point(q, k)) {
        None
    } else {
        Some(add_eval_state(s, corrected_point(q, k), p, false))
    }
}

/// The state after the first `n` corrections applied to `s`.
pub open spec fn corrections(s: MillerState, p: G1Val, q: G2Val, n: nat) -> Option<MillerState>
    decreases n,
{
    if n == 0 {
        Some(s)
    } else {
        match corrections(s, p, q, (n - 1) as nat) {
            Some(t) => correction_step(t, n - 1, p, q),
            None => None,
        }
    }
}

/// The value of the loop at `p` and `q`: the product after the whole sweep
/// and the three corrections, or none where a step meets a point that has no
/// slope.
pub open spec fn miller_value(p: G1Val, q: G2Val) -> Option<Fp12Val> {
    match sweep(p, q, DIGITS as nat) {
        Some(s) => match corrections(s, p, q, CORRECTIONS as nat) {
            Some(t) => Some(t.f),
            None => None,
        },
        None => None,
    }
}

/// Once the sweep has failed it stays failed.
pub proof fn lemma_sweep_stays_none(p: G1Val, q: G2Val, n: nat, m: nat)
    requires
        sweep(p, q, n) is None,
        n <= m,
    ensures
        sweep(p, q, m) is None,
    decreases m,
{
    if n < m {
        lemma_sweep_stays_none(p, q, n, (m - 1) as nat);
    }
}

/// A twist input with `y = 0` has no tangent slope at the first doubling: the
/// loop has no value on it.
pub proof fn lemma_zero_y_rejected(p: G1Val, q: G2Val)
    requires
        q.y == crate::fp2::fp2_zero(),
    ensures
        miller_value(p, q) is None,
{
    reveal(digit_step);
    assert(sweep(p, q, 0) == Some(MillerState { f: fp12_one(), acc: q }));
    assert(sweep(p, q, 1) is None);
    lemma_sweep_stays_none(p, q, 1, DIGITS as nat);
}

/// The accumulator of the sweep goes its way whatever the evaluation point
/// is: two points meet the same failures and the same accumulators, so that
/// the slopes of one trajectory serve every evaluation point.
pub proof fn lemma_trajectory_ignores_point(p: G1Val, other: G1Val, q: G2Val, n: nat)
    ensures
        sweep(p, q, n) is Some <==> sweep(other, q, n) is Some,
        sweep(p, q, n) is Some ==> sweep(p, q, n).unwrap().acc == sweep(
            other,
            q,
            n,
        ).unwrap().acc,
    decreases n,
{
    reveal(digit_step);
    if n > 0 {
        lemma_trajectory_ignores_point(p, other, q, (n - 1) as nat);
    }
}

/// Once the corrections have failed they stay failed.
pub proof fn lemma_corrections_stay_none(s: MillerState, p: G1Val, q: G2Val, n: nat, m: nat)
    requires
        corrections(s, p, q, n) is None,
        n <= m,
    ensures
        corrections(s, p, q, m) is None,
    decreases m,
{
    if n < m {
        lemma_corrections_stay_none(s, p, q, n, (m - 1) as nat);
    }
}

/// The `k`-th Frobenius constant.
pub fn frobenius_constant(k: usize) -> (r: Fp2)
    requires
        k < CORRECTIONS,
    ensures
        r@ == frobenius_coeff(k as int),
{
    assert(value6(FROBENIUS_LIMBS) == frobenius_residue());
    let c = Fp::from_limbs(FROBENIUS_LIMBS).unwrap();
    if k == 1 {
        Fp2::new(c, c)
    } else {
        Fp2::new(c, c.neg())
    }
}

/// The step for the `i`-th digit: squares the product unless the digit is the
/// first, doubles, and adds or subtracts `q` where the digit is not zero.
/// Returns false, with nothing more promised of the state, where the step
/// meets a point that has no slope.
pub fn sweep_step(f: &mut Fp12, acc: &mut G2Affine, p: &G1Affine, q: &G2Affine, i: usize) -> (ok:
    bool)
    requires
        i < DIGITS,
    ensures
        match digit_step(MillerState { f: old(f)@, acc: old(acc)@ }, i as int, p@, q@) {
            Some(s) => ok && s == (MillerState { f: final(f)@, acc: final(acc)@ }),
            None => !ok,
        },
        final(acc).infinity == old(acc).infinity,
{
    reveal(digit_step);
    if i != 0 {
        *f = f.square();
    }
    if acc.y.is_zero() {
        return false;
    }
    double_eval(f, acc, p);
    let digit: i8 = SIX_U_PLUS_2_NAF[i];
    if digit == 1 || digit == -1 {
        if acc.x.equals(&q.x) {
            return false;
        }
        add_eval(f, acc, q, p, digit == -1);
    }
    true
}

/// The `k`-th correction: adds the twist input, with both coordinates
/// multiplied by the `k`-th Frobenius constant, to the accumulator. Returns
/// false, with the state unchanged, where the two points have the same `x`.
pub fn correction(f: &mut Fp12, acc: &mut G2Affine, p: &G1Affine, q: &G2Affine, k: usize) -> (ok:
    bool)
    requires
        k < CORRECTIONS,
    ensures
        match correction_step(MillerState { f: old(f)@, acc: old(acc)@ }, k as int, p@, q@) {
            Some(s) => ok && s == (MillerState { f: final(f)@, acc: final(acc)@ }),
            None => !ok && *final(f) == *old(f) && *final(acc) == *old(acc),
        },
        final(acc).infinity == old(acc).infinity,
{
    reveal(correction_step);
    let frob = frobenius_constant(k);
    let corrected = G2Affine::new(q.x.mul(&frob), q.y.mul(&frob));
    if acc.x.equals(&corrected.x) {
        return false;
    }
    add_eval(f, acc, &corrected, p, false);
    true
}

/// Runs the sweep over all digits. Returns the product and the accumulator
/// after the last digit, or none where a step meets a point that has no
/// slope.
pub fn digit_sweep(p: &G1Affine, q: &G2Affine) -> (r: Option<(Fp12, G2Affine)>)
    ensures
        match r {
            Some((f, acc)) => sweep(p@, q@, DIGITS as nat) == Some(
                MillerState { f: f@, acc: acc@ },
            ) && acc.infinity == q.infinity,
            None => sweep(p@, q@, DIGITS as nat) is None,
        },
{
    let mut f = Fp12::one();
    let mut acc = *q;
    let mut i: usize = 0;
    while i < DIGITS
        invariant
            i <= DIGITS,
            sweep(p@, q@, i as nat) == Some(MillerState { f: f@, acc: acc@ }),
            acc.infinity == q.infinity,
        decreases DIGITS - i,
    {
        if !sweep_step(&mut f, &mut acc, p, q, i) {
            proof {
                lemma_sweep_stays_none(p@, q@, (i + 1) as nat, DIGITS as nat);
            }
            return None;
        }
        i = i + 1;
    }
    Some((f, acc))
}

/// Applies the three Frobenius corrections to the state that the sweep left.
/// Returns the product and the accumulator after the last one, or none where
/// a correction meets a point that has no slope.
pub fn frobenius_corrections(f: Fp12, acc: G2Affine, p: &G1Affine, q: &G2Affine) -> (r: Option<
    (Fp12, G2Affine),
>)
    ensures
        match r {
            Some((g, end)) => corrections(
                MillerState { f: f@, acc: acc@ },
                p@,
                q@,
                CORRECTIONS as nat,
            ) == Some(MillerState { f: g@, acc: end@ }) && end.infinity == acc.infinity,
            None => corrections(MillerState { f: f@, acc: acc@ }, p@, q@, CORRECTIONS as nat)
                is None,
        },
{
    let ghost start = MillerState { f: f@, acc: acc@ };
    let mut g = f;
    let mut end = acc;
    let mut k: usize = 0;
    while k < CORRECTIONS
        invariant
            k <= CORRECTIONS,
            start == (MillerState { f: f@, acc: acc@ }),
            corrections(start, p@, q@, k as nat) == Some(MillerState { f: g@, acc: end@ }),
            end.infinity == acc.infinity,
        decreases CORRECTIONS - k,
    {
        if !correction(&mut g, &mut end, p, q, k) {
            proof {
                lemma_corrections_stay_none(
                    start,
                    p@,
                    q@,
                    (k + 1) as nat,
                    CORRECTIONS as nat,
                );
            }
            return None;
        }
        k = k + 1;
    }
    Some((g, end))
}

/// The value of the loop at `p` and `q`, before any final exponentiation; none
/// where a step meets a point that has no slope.
pub fn compute_pairing(p: &G1Affine, q: &G2Affine) -> (r: Option<Fp12>)
    ensures
        match r {
            Some(f) => miller_value(p@, q@) == Some(f@),
            None => miller_value(p@, q@) is None,
        },
{
    match digit_sweep(p, q) {
        Some((f, acc)) => match frobenius_corrections(f, acc, p, q) {
            Some((g, end)) => Some(g),
            None => None,
        },
        None => None,
    }
}

/// The value of the loop at `p` and `q`, before any final exponentiation, for
/// inputs on which every step has a slope: the sweep over the digits and the
/// three corrections, with no test of the points on the way.
pub fn miller_loop(p: &G1Affine, q: &G2Affine) -> (f: Fp12)
    requires
        miller_value(p@, q@) is Some,
    ensures
        miller_value(p@, q@) == Some(f@),
{
    let mut f = Fp12::one();
    let mut acc = *q;
    let mut i: usize = 0;
    while i < DIGITS
        invariant
            i <= DIGITS,
            sweep(p@, q@, DIGITS as nat) is Some,
            sweep(p@, q@, i as nat) == Some(MillerState { f: f@, acc: acc@ }),
        decreases DIGITS - i,
    {
        proof {
            if sweep(p@, q@, (i + 1) as nat) is None {
                lemma_sweep_stays_none(p@, q@, (i + 1) as nat, DIGITS as nat);
            }
            reveal(digit_step);
        }
        if i != 0 {
            f = f.square();
        }
        double_eval(&mut f, &mut acc, p);
        let digit: i8 = SIX_U_PLUS_2_NAF[i];
        if digit == 1 || digit == -1 {
            add_eval(&mut f, &mut acc, q, p, digit == -1);
        }
        i = i + 1;
    }
    let ghost start = MillerState { f: f@, acc: acc@ };
    let mut k: usize = 0;
    while k < CORRECTIONS
        invariant
            k <= CORRECTIONS,
            sweep(p@, q@, DIGITS as nat) == Some(start),
            corrections(start, p@, q@, CORRECTIONS as nat) is Some,
            corrections(start, p@, q@, k as nat) == Some(MillerState { f: f@, acc: acc@ }),
        decreases CORRECTIONS - k,
    {
        proof {
            if corrections(start, p@, q@, (k + 1) as nat) is None {
                lemma_corrections_stay_none(
                    start,
                    p@,
                    q@,
                    (k + 1) as nat,
                    CORRECTIONS as nat,
                );
            }
            reveal(correction_step);
        }
        let frob = frobenius_constant(k);
        let corrected = G2Affine::new(q.x.mul(&frob), q.y.mul(&frob));
        add_eval(&mut f, &mut acc, &corrected, p, false);
        k = k + 1;
    }
    f
}

} // verus!
