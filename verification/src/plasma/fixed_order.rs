//! The order of fixed-point numbers.
use vstd::prelude::*;
use std::cmp::Ordering;
use crate::plasma::fixed::{widen, I80F48};
use vstd::std_specs::cmp::{PartialEqSpec, PartialOrdSpec};

verus! {

/// How two raw bit patterns compare.
pub open spec fn bits_order(lhs: int, rhs: int) -> Ordering {
    if lhs < rhs {
        Ordering::Less
    } else if lhs == rhs {
        Ordering::Equal
    } else {
        Ordering::Greater
    }
}

/// `PartialOrd` of `fixed::types::I80F48`: numbers with the same number of
/// fractional bits compare as their raw bits do, and always compare.
#[verifier::external_body]
fn fixed_partial_cmp(lhs: i128, rhs: i128) -> (order: Option<Ordering>)
    ensures
        order == Some(bits_order(widen(lhs), widen(rhs))),
{
    fixed::types::I80F48::from_bits(lhs).partial_cmp(&fixed::types::I80F48::from_bits(rhs))
}

impl PartialOrd for I80F48 {
    fn partial_cmp(&self, rhs: &I80F48) -> (order: Option<Ordering>) {
        fixed_partial_cmp(self.to_bits(), rhs.to_bits())
    }
}

impl vstd::std_specs::cmp::PartialOrdSpecImpl for I80F48 {
    open spec fn obeys_partial_cmp_spec() -> bool {
        true
    }

    open spec fn partial_cmp_spec(&self, rhs: &I80F48) -> Option<Ordering> {
        Some(bits_order(self@, rhs@))
    }
}

/// Two numbers compare as equal exactly when `==` holds of them, and the
/// order is antisymmetric.
pub proof fn law_order_agrees_with_eq(a: I80F48, b: I80F48)
    ensures
        (bits_order(a@, b@) == Ordering::Equal) == (a@ == b@),
        (bits_order(a@, b@) == Ordering::Less) == (bits_order(b@, a@) == Ordering::Greater),
{
}

/// The order of two numbers is the order of their raw bits, and they compare
/// as equal exactly when `==` holds of them.
pub proof fn law_order_is_bits_order(a: I80F48, b: I80F48)
    ensures
        (a.partial_cmp_spec(&b) == Some(Ordering::Less)) == (a@ < b@),
        (a.partial_cmp_spec(&b) == Some(Ordering::Equal)) == (a@ == b@),
        (a.partial_cmp_spec(&b) == Some(Ordering::Greater)) == (a@ > b@),
        (a.partial_cmp_spec(&b) == Some(Ordering::Equal)) == a.eq_spec(&b),
{
}

} // verus!
