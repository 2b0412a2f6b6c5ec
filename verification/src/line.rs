//! The line evaluator: turns the slope of a step and the coordinates that the
//! accumulator had before it into a sparse element of the target field, and
//! folds that element into the running product.
use crate::curve::{G1Affine, G1Val, G2Affine, G2Val};
use crate::fp12::{fp12_mul, fp12_sparse_034, Fp12, Fp12Val};
use crate::fp2::{fp2_mul, fp2_one, fp2_scale, fp2_sub, Fp2, Fp2Val};
use crate::steps::{add_point, add_slope, can_add, can_double, double_point, double_slope};
use vstd::prelude::*;

verus! {

/// The state of the loop: the running product and the accumulator point.
pub struct MillerState {
    pub f: Fp12Val,
    pub acc: G2Val,
}

/// The first coefficient of the line: the slope times the `x` of the
/// evaluation point.
pub open spec fn line_c1(slope: Fp2Val, p: G1Val) -> Fp2Val {
    fp2_scale(slope, p.x)
}

/// The second coefficient of the line: `slope * t_x - t_y` times the `y` of
/// the evaluation point.
pub open spec fn line_c3(slope: Fp2Val, p: G1Val, t_x: Fp2Val, t_y: Fp2Val) -> Fp2Val {
    fp2_scale(fp2_sub(fp2_mul(slope, t_x), t_y), p.y)
}

/// The line through `(t_x, t_y)` with the given slope, evaluated at `p`: the
/// sparse element with leading coefficient one and the two line coefficients.
pub open spec fn line_value(slope: Fp2Val, p: G1Val, t_x: Fp2Val, t_y: Fp2Val) -> Fp12Val {
    fp12_sparse_034(fp2_one(), line_c1(slope, p), line_c3(slope, p, t_x, t_y))
}

/// The state after a doubling step evaluated at `p`.
pub open spec fn double_eval_state(s: MillerState, p: G1Val) -> MillerState {
    MillerState {
        f: fp12_mul(s.f, line_value(double_slope(s.acc), p, s.acc.x, s.acc.y)),
        acc: double_point(s.acc),
    }
}

/// The state after an addition step with `other`, evaluated at `p`.
pub open spec fn add_eval_state(s: MillerState, other: G2Val, p: G1Val, negate: bool)
    -> MillerState {
    MillerState {
        f: fp12_mul(s.f, line_value(add_slope(s.acc, other, negate), p, s.acc.x, s.acc.y)),
        acc: add_point(s.acc, other, negate),
    }
}

/// Multiplies `f` by the line through `(t_x, t_y)` with slope `lambda`,
/// evaluated at `point`.
pub fn line_evaluation(f: &mut Fp12, lambda: Fp2, point: &G1Affine, t_x: Fp2, t_y: Fp2)
    ensures
        final(f)@ == fp12_mul(old(f)@, line_value(lambda@, point@, t_x@, t_y@)),
{
    let c1 = Fp2::new(lambda.c0.mul(&point.x), lambda.c1.mul(&point.x));
    let t = lambda.mul(&t_x).sub(&t_y);
    let c3 = Fp2::new(t.c0.mul(&point.y), t.c1.mul(&point.y));
    f.mul_by_034(&Fp2::one(), &c1, &c3);
}

/// One addition step: adds `other`, or subtracts it where `neg` is set, and
/// folds the line of the step, evaluated at `point`, into `f`.
pub fn add_eval(f: &mut Fp12, acc: &mut G2Affine, other: &G2Affine, point: &G1Affine, neg: bool)
    requires
        can_add(old(acc)@, other@),
    ensures
        (MillerState { f: final(f)@, acc: final(acc)@ }) == add_eval_state(
            MillerState { f: old(f)@, acc: old(acc)@ },
            other@,
            point@,
            neg,
        ),
        final(acc).infinity == old(acc).infinity,
{
    let t_x = acc.x;
    let t_y = acc.y;
    let lambda = crate::steps::add(acc, other, neg);
    line_evaluation(f, lambda, point, t_x, t_y);
}

/// One doubling step: doubles the accumulator and folds the line of the
/// step, evaluated at `point`, into `f`.
pub fn double_eval(f: &mut Fp12, acc: &mut G2Affine, point: &G1Affine)
    requires
        can_double(old(acc)@),
    ensures
        (MillerState { f: final(f)@, acc: final(acc)@ }) == double_eval_state(
            MillerState { f: old(f)@, acc: old(acc)@ },
            point@,
        ),
        final(acc).infinity == old(acc).infinity,
{
    let t_x = acc.x;
    let t_y = acc.y;
    let lambda = crate::steps::double(acc);
    line_evaluation(f, lambda, point, t_x, t_y);
}

} // verus!
