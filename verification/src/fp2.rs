//! The quadratic extension of the base field by a square root `u` of `-1`.
use crate::fp::Fp;
use crate::modular::{fp_add, fp_canonical, fp_inv, fp_mul, fp_neg, fp_sub};
use vstd::prelude::*;

verus! {

/// An element `c0 + c1 u` of the quadratic extension, as a pair of residues.
pub struct Fp2Val {
    pub c0: int,
    pub c1: int,
}

/// Whether both coefficients are canonical residues.
pub open spec fn fp2_canonical(a: Fp2Val) -> bool {
    fp_canonical(a.c0) && fp_canonical(a.c1)
}

/// Zero of the quadratic extension.
pub open spec fn fp2_zero() -> Fp2Val {
    Fp2Val { c0: 0, c1: 0 }
}

/// One of the quadratic extension.
pub open spec fn fp2_one() -> Fp2Val {
    Fp2Val { c0: 1, c1: 0 }
}

/// Sum in the quadratic extension.
pub open spec fn fp2_add(a: Fp2Val, b: Fp2Val) -> Fp2Val {
    Fp2Val { c0: fp_add(a.c0, b.c0), c1: fp_add(a.c1, b.c1) }
}

/// Difference in the quadratic extension.
pub open spec fn fp2_sub(a: Fp2Val, b: Fp2Val) -> Fp2Val {
    Fp2Val { c0: fp_sub(a.c0, b.c0), c1: fp_sub(a.c1, b.c1) }
}

/// Additive inverse in the quadratic extension.
pub open spec fn fp2_neg(a: Fp2Val) -> Fp2Val {
    Fp2Val { c0: fp_neg(a.c0), c1: fp_neg(a.c1) }
}

/// Twice an element of the quadratic extension.
pub open spec fn fp2_double(a: Fp2Val) -> Fp2Val {
    fp2_add(a, a)
}

/// Product in the quadratic extension, where `u * u = -1`.
pub open spec fn fp2_mul(a: Fp2Val, b: Fp2Val) -> Fp2Val {
    Fp2Val {
        c0: fp_sub(fp_mul(a.c0, b.c0), fp_mul(a.c1, b.c1)),
        c1: fp_add(fp_mul(a.c0, b.c1), fp_mul(a.c1, b.c0)),
    }
}

/// Square in the quadratic extension.
pub open spec fn fp2_square(a: Fp2Val) -> Fp2Val {
    fp2_mul(a, a)
}

/// Product of an element of the quadratic extension and a base-field scalar.
pub open spec fn fp2_scale(a: Fp2Val, s: int) -> Fp2Val {
    Fp2Val { c0: fp_mul(a.c0, s), c1: fp_mul(a.c1, s) }
}

/// Product with the non-residue `1 + u`.
pub open spec fn fp2_mul_by_nonresidue(a: Fp2Val) -> Fp2Val {
    Fp2Val { c0: fp_sub(a.c0, a.c1), c1: fp_add(a.c0, a.c1) }
}

/// The norm `c0^2 + c1^2` down to the base field.
pub open spec fn fp2_norm(a: Fp2Val) -> int {
    fp_add(fp_mul(a.c0, a.c0), fp_mul(a.c1, a.c1))
}

/// The conjugate over the inverse of the norm: the inverse of every element
/// that has one.
pub open spec fn fp2_inv(a: Fp2Val) -> Fp2Val {
    let t = fp_inv(fp2_norm(a));
    Fp2Val { c0: fp_mul(a.c0, t), c1: fp_mul(a.c1, fp_neg(t)) }
}

/// Twice a canonical element is zero only if the element is.
pub proof fn lemma_fp2_double_nonzero(a: Fp2Val)
    requires
        fp2_canonical(a),
        a != fp2_zero(),
    ensures
        fp2_double(a) != fp2_zero(),
{
}

/// The difference of two canonical elements is zero only if they are equal.
pub proof fn lemma_fp2_sub_nonzero(a: Fp2Val, b: Fp2Val)
    requires
        fp2_canonical(a),
        fp2_canonical(b),
        a != b,
    ensures
        fp2_sub(a, b) != fp2_zero(),
{
}

/// Zero annihilates in products.
pub proof fn lemma_fp2_mul_zero(a: Fp2Val)
    ensures
        fp2_mul(a, fp2_zero()) == fp2_zero(),
        fp2_mul(fp2_zero(), a) == fp2_zero(),
{
    assert(a.c0 * 0 == 0 && a.c1 * 0 == 0 && 0 * a.c0 == 0 && 0 * a.c1 == 0);
}

/// Zero is neutral in sums of canonical elements.
pub proof fn lemma_fp2_add_zero(a: Fp2Val)
    requires
        fp2_canonical(a),
    ensures
        fp2_add(a, fp2_zero()) == a,
        fp2_add(fp2_zero(), a) == a,
{
}

/// Sums, products and products with the non-residue are canonical.
pub proof fn lemma_fp2_results_canonical(a: Fp2Val, b: Fp2Val)
    ensures
        fp2_canonical(fp2_add(a, b)),
        fp2_canonical(fp2_mul(a, b)),
        fp2_canonical(fp2_mul_by_nonresidue(a)),
        fp2_mul_by_nonresidue(fp2_zero()) == fp2_zero(),
{
}

/// An element of the quadratic extension.
#[derive(Clone, Copy, Debug, PartialEq, Eq)]
pub struct Fp2 {
    pub c0: Fp,
    pub c1: Fp,
}

impl View for Fp2 {
    type V = Fp2Val;

    open spec fn view(&self) -> Fp2Val {
        Fp2Val { c0: self.c0@, c1: self.c1@ }
    }
}

impl Fp2 {
    /// The view of an element has canonical coefficients.
    pub proof fn lemma_canonical(self)
        ensures
            fp2_canonical(self@),
    {
        self.c0.lemma_canonical();
        self.c1.lemma_canonical();
    }

    /// The element `c0 + c1 u`.
    pub fn new(c0: Fp, c1: Fp) -> (r: Fp2)
        ensures
            r.c0 == c0,
            r.c1 == c1,
    {
        Fp2 { c0, c1 }
    }

    /// The additive identity.
    pub fn zero() -> (r: Fp2)
        ensures
            r@ == fp2_zero(),
    {
        Fp2 { c0: Fp::zero(), c1: Fp::zero() }
    }

    /// The multiplicative identity.
    pub fn one() -> (r: Fp2)
        ensures
            r@ == fp2_one(),
    {
        Fp2 { c0: Fp::one(), c1: Fp::zero() }
    }

    /// Whether the element is zero.
    pub fn is_zero(&self) -> (r: bool)
        ensures
            r == (self@ == fp2_zero()),
    {
        self.c0.is_zero() && self.c1.is_zero()
    }

    /// Whether two elements are equal.
    pub fn equals(&self, rhs: &Fp2) -> (r: bool)
        ensures
            r == (self@ == rhs@),
    {
        self.c0.equals(&rhs.c0) && self.c1.equals(&rhs.c1)
    }

    /// The sum of two elements.
    pub fn add(&self, rhs: &Fp2) -> (r: Fp2)
        ensures
            r@ == fp2_add(self@, rhs@),
    {
        Fp2 { c0: self.c0.add(&rhs.c0), c1: self.c1.add(&rhs.c1) }
    }

    /// The difference of two elements.
    pub fn sub(&self, rhs: &Fp2) -> (r: Fp2)
        ensures
            r@ == fp2_sub(self@, rhs@),
    {
        Fp2 { c0: self.c0.sub(&rhs.c0), c1: self.c1.sub(&rhs.c1) }
    }

    /// The additive inverse.
    pub fn neg(&self) -> (r: Fp2)
        ensures
            r@ == fp2_neg(self@),
    {
        Fp2 { c0: self.c0.neg(), c1: self.c1.neg() }
    }

    /// Twice the element.
    pub fn double(&self) -> (r: Fp2)
        ensures
            r@ == fp2_double(self@),
    {
        self.add(self)
    }

    /// The product of two elements.
    pub fn mul(&self, rhs: &Fp2) -> (r: Fp2)
        ensures
            r@ == fp2_mul(self@, rhs@),
    {
        let c0 = self.c0.mul(&rhs.c0).sub(&self.c1.mul(&rhs.c1));
        let c1 = self.c0.mul(&rhs.c1).add(&self.c1.mul(&rhs.c0));
        Fp2 { c0, c1 }
    }

    /// The square of the element.
    pub fn square(&self) -> (r: Fp2)
        ensures
            r@ == fp2_square(self@),
    {
        self.mul(self)
    }

    /// The product of the element and a base-field scalar.
    pub fn scale(&self, s: &Fp) -> (r: Fp2)
        ensures
            r@ == fp2_scale(self@, s@),
    {
        Fp2 { c0: self.c0.mul(s), c1: self.c1.mul(s) }
    }

    /// The product of the element and the non-residue `1 + u`.
    pub fn mul_by_nonresidue(&self) -> (r: Fp2)
        ensures
            r@ == fp2_mul_by_nonresidue(self@),
    {
        Fp2 { c0: self.c0.sub(&self.c1), c1: self.c0.add(&self.c1) }
    }

    /// The multiplicative inverse: the conjugate over the inverse of the
    /// norm; none for zero.
    pub fn invert(&self) -> (r: Option<Fp2>)
        ensures
            match r {
                Some(x) => self@ != fp2_zero() && x@ == fp2_inv(self@),
                None => self@ == fp2_zero(),
            },
    {
        if self.is_zero() {
            None
        } else {
            let norm = self.c0.square().add(&self.c1.square());
            let t = norm.inverse_power();
            Some(Fp2 { c0: self.c0.mul(&t), c1: self.c1.mul(&t.neg()) })
        }
    }
}

} // verus!
