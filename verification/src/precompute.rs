//! The precomputed form of a line: its coefficients from the slope and the
//! intercept of a step alone, for evaluation at many points that share one
//! trajectory of the accumulator.
use crate::curve::{G1Affine, G1Val};
use crate::fp12::{fp12_mul, fp12_sparse_034, Fp12, Fp12Val};
use crate::fp2::{fp2_mul, fp2_neg, fp2_one, fp2_scale, fp2_sub, Fp2, Fp2Val};
use crate::line::{line_c1, line_c3, line_value};
use vstd::prelude::*;

verus! {

/// The intercept `t_y - slope * t_x` of the line through `(t_x, t_y)`.
pub open spec fn line_intercept(slope: Fp2Val, t_x: Fp2Val, t_y: Fp2Val) -> Fp2Val {
    fp2_sub(t_y, fp2_mul(slope, t_x))
}

/// The three coefficients of the line with slope `alpha` and intercept `bias`
/// at `p`: one, `alpha` times the `x` of `p`, and `-bias` times the `y` of `p`.
pub open spec fn precomputed_line(p: G1Val, alpha: Fp2Val, bias: Fp2Val) -> (
    Fp2Val,
    Fp2Val,
    Fp2Val,
) {
    (fp2_one(), fp2_scale(alpha, p.x), fp2_scale(fp2_neg(bias), p.y))
}

/// The sparse element of the target field that three coefficients stand for.
pub open spec fn line_element(coeffs: (Fp2Val, Fp2Val, Fp2Val)) -> Fp12Val {
    fp12_sparse_034(coeffs.0, coeffs.1, coeffs.2)
}

/// The precomputed line of a step, from its slope and the intercept of its
/// line, has the coefficients that the line evaluator computes from the
/// slope and the coordinates before the step, and so folds the same element
/// into any product.
pub proof fn lemma_line_parity(f: Fp12Val, slope: Fp2Val, p: G1Val, t_x: Fp2Val, t_y: Fp2Val)
    ensures
        precomputed_line(p, slope, line_intercept(slope, t_x, t_y)) == (
            fp2_one(),
            line_c1(slope, p),
            line_c3(slope, p, t_x, t_y),
        ),
        fp12_mul(f, line_element(precomputed_line(p, slope, line_intercept(slope, t_x, t_y))))
            == fp12_mul(f, line_value(slope, p, t_x, t_y)),
{
    let m = fp2_mul(slope, t_x);
    crate::modular::lemma_fp_neg_sub(t_y.c0, m.c0);
    crate::modular::lemma_fp_neg_sub(t_y.c1, m.c1);
    assert(fp2_neg(fp2_sub(t_y, m)) == fp2_sub(m, t_y));
}

/// The intercept of the line through `(t_x, t_y)` with slope `lambda`.
pub fn intercept(lambda: &Fp2, t_x: &Fp2, t_y: &Fp2) -> (bias: Fp2)
    ensures
        bias@ == line_intercept(lambda@, t_x@, t_y@),
{
    t_y.sub(&lambda.mul(t_x))
}

/// The coefficients at `p` of the line with slope `alpha` and intercept
/// `bias`.
pub fn line_evaluation(p: &G1Affine, alpha: Fp2, bias: Fp2) -> (r: (Fp2, Fp2, Fp2))
    ensures
        (r.0@, r.1@, r.2@) == precomputed_line(p@, alpha@, bias@),
{
    (Fp2::one(), alpha.scale(&p.x), bias.neg().scale(&p.y))
}

/// Multiplies `f` by the line that the three coefficients stand for.
pub fn fold_line(f: &mut Fp12, coeffs: &(Fp2, Fp2, Fp2))
    ensures
        final(f)@ == fp12_mul(old(f)@, line_element((coeffs.0@, coeffs.1@, coeffs.2@))),
{
    f.mul_by_034(&coeffs.0, &coeffs.1, &coeffs.2);
}

} // verus!
