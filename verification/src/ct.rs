//! Choices and selections that take no branch on what they choose by, from
//! the `subtle` crate.
use subtle::{Choice, ConditionallySelectable};
use vstd::prelude::*;

verus! {

/// `subtle::Choice`, a byte that stands for a truth value and that the
/// compiler is kept from treating as one.
#[verifier::external_type_specification]
#[verifier::external_body]
pub struct ExChoice(Choice);

/// The byte that a choice holds.
pub uninterp spec fn choice_bit(c: Choice) -> u8;

/// `Choice::from` on a byte: the choice holds the byte it was made from. The
/// source asserts that the byte is zero or one where debug assertions are on,
/// and the precondition keeps to that range.
#[verifier::external_body]
pub(crate) fn choice_from_u8(bit: u8) -> (c: Choice)
    requires
        bit <= 1,
    ensures
        choice_bit(c) == bit,
{
    Choice::from(bit)
}

/// `u64::conditional_select`: the first limb where the choice holds zero, the
/// second where it holds one. The source computes it with a mask, not a
/// branch.
#[verifier::external_body]
pub(crate) fn select_limb(a: u64, b: u64, choice: Choice) -> (r: u64)
    requires
        choice_bit(choice) <= 1,
    ensures
        r == if choice_bit(choice) == 1 {
            b
        } else {
            a
        },
{
    u64::conditional_select(&a, &b, choice)
}

} // verus!
