//! Signed 64-bit addition with an exact contract.

use vstd::prelude::*;

verus! {

/// The mathematical sum of two integers; `add` is proved against this model.
pub open spec fn sum_spec(a: int, b: int) -> int {
    a + b
}

/// Adds two signed 64-bit integers.
///
/// Overflow policy: pairs whose mathematical sum falls outside the signed
/// 64-bit range are excluded by precondition, so the result is always the
/// exact sum and the function never wraps and never panics.
pub fn add(a: i64, b: i64) -> (r: i64)
    requires
        i64::MIN <= a + b <= i64::MAX,
    ensures
        r == sum_spec(a as int, b as int),
{
    a + b
}

/// Addition is commutative: the sum does not depend on argument order.
pub proof fn lemma_add_commutative(a: i64, b: i64)
    ensures
        sum_spec(a as int, b as int) == sum_spec(b as int, a as int),
{
}

/// Zero is the identity of addition: adding zero returns the argument.
pub proof fn lemma_add_identity(a: i64)
    ensures
        sum_spec(a as int, 0) == a as int,
{
}

} // verus!
