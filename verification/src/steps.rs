//! The two steps of the group law on the twist, in affine coordinates: each
//! replaces the accumulator by the next point and hands back the slope of the
//! line it went along.
use crate::curve::{G2Affine, G2Val};
use crate::fp2::{
    fp2_add, fp2_double, fp2_inv, fp2_mul, fp2_square, fp2_sub, fp2_zero,
    lemma_fp2_double_nonzero, lemma_fp2_sub_nonzero, Fp2, Fp2Val,
};
use vstd::prelude::*;

verus! {

/// The slope `3 x^2 / (2 y)` of the tangent at `t`.
pub open spec fn double_slope(t: G2Val) -> Fp2Val {
    let x2 = fp2_square(t.x);
    fp2_mul(fp2_add(fp2_double(x2), x2), fp2_inv(fp2_double(t.y)))
}

/// The slope of the chord from `other`, or from its negative, to `t`.
pub open spec fn add_slope(t: G2Val, other: G2Val, negate: bool) -> Fp2Val {
    let dy = if negate {
        fp2_add(t.y, other.y)
    } else {
        fp2_sub(t.y, other.y)
    };
    fp2_mul(dy, fp2_inv(fp2_sub(t.x, other.x)))
}

/// The point `2 t`: where the tangent at `t` meets the curve again, reflected.
pub open spec fn double_point(t: G2Val) -> G2Val {
    let slope = double_slope(t);
    let x3 = fp2_sub(fp2_square(slope), fp2_double(t.x));
    G2Val { x: x3, y: fp2_sub(fp2_mul(slope, fp2_sub(t.x, x3)), t.y) }
}

/// The point `t + other`, or `t - other` where `negate` is set: where the
/// chord meets the curve again, reflected.
pub open spec fn add_point(t: G2Val, other: G2Val, negate: bool) -> G2Val {
    let slope = add_slope(t, other, negate);
    let x3 = fp2_sub(fp2_sub(fp2_square(slope), t.x), other.x);
    G2Val { x: x3, y: fp2_sub(fp2_mul(slope, fp2_sub(t.x, x3)), t.y) }
}

/// Whether the tangent at `t` has a slope: whether `y` is not zero.
pub open spec fn can_double(t: G2Val) -> bool {
    t.y != fp2_zero()
}

/// Whether the chord through `t` and `other` has a slope: whether the two
/// differ in `x`.
pub open spec fn can_add(t: G2Val, other: G2Val) -> bool {
    t.x != other.x
}

/// Replaces the accumulator by its double and returns the slope of the
/// tangent. A point with `y = 0` has no tangent slope and is left out.
pub fn double(acc: &mut G2Affine) -> (slope: Fp2)
    requires
        can_double(old(acc)@),
    ensures
        slope@ == double_slope(old(acc)@),
        final(acc)@ == double_point(old(acc)@),
        final(acc).infinity == old(acc).infinity,
{
    let x2 = acc.x.square();
    let t0 = x2.double().add(&x2);
    let d = acc.y.double();
    proof {
        acc.y.lemma_canonical();
        lemma_fp2_double_nonzero(acc.y@);
    }
    let t1 = d.invert().unwrap();
    let lambda = t0.mul(&t1);
    let x3 = lambda.square().sub(&acc.x.double());
    let y3 = lambda.mul(&acc.x.sub(&x3)).sub(&acc.y);
    acc.x = x3;
    acc.y = y3;
    lambda
}

/// Replaces the accumulator by its sum with `other`, or by its difference from
/// `other` where `neg` is set, and returns the slope of the chord. Two points
/// with the same `x` have no chord slope and are left out.
pub fn add(acc: &mut G2Affine, other: &G2Affine, neg: bool) -> (slope: Fp2)
    requires
        can_add(old(acc)@, other@),
    ensures
        slope@ == add_slope(old(acc)@, other@, neg),
        final(acc)@ == add_point(old(acc)@, other@, neg),
        final(acc).infinity == old(acc).infinity,
{
    let t0 = if neg {
        acc.y.add(&other.y)
    } else {
        acc.y.sub(&other.y)
    };
    let d = acc.x.sub(&other.x);
    proof {
        acc.x.lemma_canonical();
        other.x.lemma_canonical();
        lemma_fp2_sub_nonzero(acc.x@, other.x@);
    }
    let t1 = d.invert().unwrap();
    let lambda = t0.mul(&t1);
    let x3 = lambda.square().sub(&acc.x).sub(&other.x);
    let y3 = lambda.mul(&acc.x.sub(&x3)).sub(&acc.y);
    acc.x = x3;
    acc.y = y3;
    lambda
}

} // verus!
