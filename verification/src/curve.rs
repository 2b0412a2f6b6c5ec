//! Affine points of the base curve and of its twist, as coordinates with a
//! flag for the point at infinity.
use crate::ct::{choice_bit, choice_from_u8};
use crate::fp::Fp;
use crate::fp2::{Fp2, Fp2Val};
use subtle::Choice;
use vstd::prelude::*;

verus! {

/// The coordinates of a point of the base curve.
pub struct G1Val {
    pub x: int,
    pub y: int,
}

/// The coordinates of a point of the twist.
pub struct G2Val {
    pub x: Fp2Val,
    pub y: Fp2Val,
}

/// A point of the base curve in affine coordinates. The flag holds one for
/// the point at infinity.
#[derive(Clone, Copy, Debug)]
pub struct G1Affine {
    pub x: Fp,
    pub y: Fp,
    pub infinity: Choice,
}

/// A point of the twist in affine coordinates. The flag holds one for the
/// point at infinity.
#[derive(Clone, Copy, Debug)]
pub struct G2Affine {
    pub x: Fp2,
    pub y: Fp2,
    pub infinity: Choice,
}

impl View for G1Affine {
    type V = G1Val;

    open spec fn view(&self) -> G1Val {
        G1Val { x: self.x@, y: self.y@ }
    }
}

impl View for G2Affine {
    type V = G2Val;

    open spec fn view(&self) -> G2Val {
        G2Val { x: self.x@, y: self.y@ }
    }
}

impl G1Affine {
    /// The finite point with the given coordinates.
    pub fn new(x: Fp, y: Fp) -> (r: G1Affine)
        ensures
            r.x == x,
            r.y == y,
            choice_bit(r.infinity) == 0,
    {
        G1Affine { x, y, infinity: choice_from_u8(0) }
    }
}

impl G2Affine {
    /// The finite point with the given coordinates.
    pub fn new(x: Fp2, y: Fp2) -> (r: G2Affine)
        ensures
            r.x == x,
            r.y == y,
            choice_bit(r.infinity) == 0,
    {
        G2Affine { x, y, infinity: choice_from_u8(0) }
    }
}

} // verus!
