//! The cubic extension of the quadratic extension by a cube root `v` of the
//! non-residue `1 + u`.
use crate::fp2::{
    fp2_add, fp2_mul, fp2_mul_by_nonresidue, fp2_one, fp2_zero, lemma_fp2_add_zero,
    lemma_fp2_mul_zero, lemma_fp2_results_canonical, Fp2, Fp2Val,
};
use vstd::prelude::*;

verus! {

/// An element `c0 + c1 v + c2 v^2` of the cubic extension.
pub struct Fp6Val {
    pub c0: Fp2Val,
    pub c1: Fp2Val,
    pub c2: Fp2Val,
}

/// Zero of the cubic extension.
pub open spec fn fp6_zero() -> Fp6Val {
    Fp6Val { c0: fp2_zero(), c1: fp2_zero(), c2: fp2_zero() }
}

/// One of the cubic extension.
pub open spec fn fp6_one() -> Fp6Val {
    Fp6Val { c0: fp2_one(), c1: fp2_zero(), c2: fp2_zero() }
}

/// Sum in the cubic extension.
pub open spec fn fp6_add(a: Fp6Val, b: Fp6Val) -> Fp6Val {
    Fp6Val { c0: fp2_add(a.c0, b.c0), c1: fp2_add(a.c1, b.c1), c2: fp2_add(a.c2, b.c2) }
}

/// Product in the cubic extension, where `v^3 = 1 + u`.
#[verifier::opaque]
pub open spec fn fp6_mul(a: Fp6Val, b: Fp6Val) -> Fp6Val {
    Fp6Val {
        c0: fp2_add(
            fp2_mul(a.c0, b.c0),
            fp2_mul_by_nonresidue(fp2_add(fp2_mul(a.c1, b.c2), fp2_mul(a.c2, b.c1))),
        ),
        c1: fp2_add(
            fp2_add(fp2_mul(a.c0, b.c1), fp2_mul(a.c1, b.c0)),
            fp2_mul_by_nonresidue(fp2_mul(a.c2, b.c2)),
        ),
        c2: fp2_add(fp2_add(fp2_mul(a.c0, b.c2), fp2_mul(a.c1, b.c1)), fp2_mul(a.c2, b.c0)),
    }
}

/// Product with `v`.
pub open spec fn fp6_mul_by_nonresidue(a: Fp6Val) -> Fp6Val {
    Fp6Val { c0: fp2_mul_by_nonresidue(a.c2), c1: a.c0, c2: a.c1 }
}

/// The element `b0 + b1 v`, whose last coefficient is zero.
pub open spec fn fp6_sparse_01(b0: Fp2Val, b1: Fp2Val) -> Fp6Val {
    Fp6Val { c0: b0, c1: b1, c2: fp2_zero() }
}

/// The element of the quadratic extension, embedded.
pub open spec fn fp6_embed(b0: Fp2Val) -> Fp6Val {
    Fp6Val { c0: b0, c1: fp2_zero(), c2: fp2_zero() }
}

/// The product with an embedded element of the quadratic extension scales
/// each coefficient.
pub proof fn lemma_fp6_mul_embed(a: Fp6Val, b0: Fp2Val)
    ensures
        fp6_mul(a, fp6_embed(b0)) == (Fp6Val {
            c0: fp2_mul(a.c0, b0),
            c1: fp2_mul(a.c1, b0),
            c2: fp2_mul(a.c2, b0),
        }),
{
    reveal(fp6_mul);
    let z = fp2_zero();
    let r = fp6_mul(a, fp6_embed(b0));
    lemma_fp2_mul_zero(a.c0);
    lemma_fp2_mul_zero(a.c1);
    lemma_fp2_mul_zero(a.c2);
    lemma_fp2_results_canonical(a.c0, b0);
    lemma_fp2_results_canonical(a.c1, b0);
    lemma_fp2_results_canonical(a.c2, b0);
    lemma_fp2_add_zero(z);
    lemma_fp2_add_zero(fp2_mul(a.c0, b0));
    lemma_fp2_add_zero(fp2_mul(a.c1, b0));
    lemma_fp2_add_zero(fp2_mul(a.c2, b0));
    assert(r.c0 == fp2_add(fp2_mul(a.c0, b0), fp2_mul_by_nonresidue(fp2_add(z, z))));
    assert(r.c1 == fp2_add(fp2_add(z, fp2_mul(a.c1, b0)), fp2_mul_by_nonresidue(z)));
    assert(r.c2 == fp2_add(fp2_add(z, z), fp2_mul(a.c2, b0)));
}

/// The product with `b0 + b1 v` has six terms.
pub proof fn lemma_fp6_mul_sparse_01(a: Fp6Val, b0: Fp2Val, b1: Fp2Val)
    ensures
        fp6_mul(a, fp6_sparse_01(b0, b1)) == (Fp6Val {
            c0: fp2_add(fp2_mul(a.c0, b0), fp2_mul_by_nonresidue(fp2_mul(a.c2, b1))),
            c1: fp2_add(fp2_mul(a.c0, b1), fp2_mul(a.c1, b0)),
            c2: fp2_add(fp2_mul(a.c1, b1), fp2_mul(a.c2, b0)),
        }),
{
    reveal(fp6_mul);
    let z = fp2_zero();
    let r = fp6_mul(a, fp6_sparse_01(b0, b1));
    lemma_fp2_mul_zero(a.c0);
    lemma_fp2_mul_zero(a.c1);
    lemma_fp2_mul_zero(a.c2);
    lemma_fp2_results_canonical(a.c2, b1);
    lemma_fp2_results_canonical(a.c1, b1);
    lemma_fp2_results_canonical(fp2_mul(a.c0, b1), fp2_mul(a.c1, b0));
    lemma_fp2_add_zero(fp2_mul(a.c2, b1));
    lemma_fp2_add_zero(fp2_mul(a.c1, b1));
    lemma_fp2_add_zero(fp2_add(fp2_mul(a.c0, b1), fp2_mul(a.c1, b0)));
    assert(r.c0 == fp2_add(
        fp2_mul(a.c0, b0),
        fp2_mul_by_nonresidue(fp2_add(z, fp2_mul(a.c2, b1))),
    ));
    assert(r.c1 == fp2_add(
        fp2_add(fp2_mul(a.c0, b1), fp2_mul(a.c1, b0)),
        fp2_mul_by_nonresidue(z),
    ));
    assert(r.c2 == fp2_add(fp2_add(z, fp2_mul(a.c1, b1)), fp2_mul(a.c2, b0)));
}

/// An element of the cubic extension.
#[derive(Clone, Copy, Debug, PartialEq, Eq)]
pub struct Fp6 {
    pub c0: Fp2,
    pub c1: Fp2,
    pub c2: Fp2,
}

impl View for Fp6 {
    type V = Fp6Val;

    open spec fn view(&self) -> Fp6Val {
        Fp6Val { c0: self.c0@, c1: self.c1@, c2: self.c2@ }
    }
}

impl Fp6 {
    /// The additive identity.
    pub fn zero() -> (r: Fp6)
        ensures
            r@ == fp6_zero(),
    {
        Fp6 { c0: Fp2::zero(), c1: Fp2::zero(), c2: Fp2::zero() }
    }

    /// The multiplicative identity.
    pub fn one() -> (r: Fp6)
        ensures
            r@ == fp6_one(),
    {
        Fp6 { c0: Fp2::one(), c1: Fp2::zero(), c2: Fp2::zero() }
    }

    /// Whether two elements are equal.
    pub fn equals(&self, rhs: &Fp6) -> (r: bool)
        ensures
            r == (self@ == rhs@),
    {
        self.c0.equals(&rhs.c0) && self.c1.equals(&rhs.c1) && self.c2.equals(&rhs.c2)
    }

    /// The sum of two elements.
    pub fn add(&self, rhs: &Fp6) -> (r: Fp6)
        ensures
            r@ == fp6_add(self@, rhs@),
    {
        Fp6 { c0: self.c0.add(&rhs.c0), c1: self.c1.add(&rhs.c1), c2: self.c2.add(&rhs.c2) }
    }

    /// The product of two elements.
    pub fn mul(&self, rhs: &Fp6) -> (r: Fp6)
        ensures
            r@ == fp6_mul(self@, rhs@),
    {
        reveal(fp6_mul);
        let c0 = self.c0.mul(&rhs.c0).add(
            &self.c1.mul(&rhs.c2).add(&self.c2.mul(&rhs.c1)).mul_by_nonresidue(),
        );
        let c1 = self.c0.mul(&rhs.c1).add(&self.c1.mul(&rhs.c0)).add(
            &self.c2.mul(&rhs.c2).mul_by_nonresidue(),
        );
        let c2 = self.c0.mul(&rhs.c2).add(&self.c1.mul(&rhs.c1)).add(&self.c2.mul(&rhs.c0));
        Fp6 { c0, c1, c2 }
    }

    /// The product of the element and `v`.
    pub fn mul_by_nonresidue(&self) -> (r: Fp6)
        ensures
            r@ == fp6_mul_by_nonresidue(self@),
    {
        Fp6 { c0: self.c2.mul_by_nonresidue(), c1: self.c0, c2: self.c1 }
    }

    /// The product of the element and an element of the quadratic extension:
    /// three multiplications in place of nine.
    pub fn scale(&self, b0: &Fp2) -> (r: Fp6)
        ensures
            r@ == fp6_mul(self@, fp6_embed(b0@)),
    {
        proof {
            lemma_fp6_mul_embed(self@, b0@);
        }
        Fp6 { c0: self.c0.mul(b0), c1: self.c1.mul(b0), c2: self.c2.mul(b0) }
    }

    /// The product of the element and `b0 + b1 v`: six multiplications in
    /// place of nine.
    pub fn mul_by_01(&self, b0: &Fp2, b1: &Fp2) -> (r: Fp6)
        ensures
            r@ == fp6_mul(self@, fp6_sparse_01(b0@, b1@)),
    {
        proof {
            lemma_fp6_mul_sparse_01(self@, b0@, b1@);
        }
        let c0 = self.c0.mul(b0).add(&self.c2.mul(b1).mul_by_nonresidue());
        let c1 = self.c0.mul(b1).add(&self.c1.mul(b0));
        let c2 = self.c1.mul(b1).add(&self.c2.mul(b0));
        Fp6 { c0, c1, c2 }
    }
}

} // verus!
