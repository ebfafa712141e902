use core::cmp::Ordering;
use vstd::prelude::*;
use vstd::std_specs::cmp::PartialOrdIs;
use vstd::std_specs::cmp::PartialOrdSpec;

verus! {

/// The operand the comparator selects: `a` when `a` is strictly greater
/// than `b` under the type's ordering, and `b` otherwise, so that a tie
/// resolves to the second operand.
pub open spec fn larger_of<T: PartialOrd>(a: T, b: T) -> T {
    if a.is_gt(&b) {
        a
    } else {
        b
    }
}

/// Returns the larger of the two operands; when neither is strictly
/// greater, the second one. Reporting the outcome is the caller's
/// business.
pub fn larger<T: PartialOrd>(a: T, b: T) -> (r: T)
    requires
        T::obeys_partial_cmp_spec(),
    ensures
        r == larger_of(a, b),
        a.is_gt(&b) ==> r == a,
        !a.is_gt(&b) ==> r == b,
{
    if a.gt(&b) {
        a
    } else {
        b
    }
}

/// Law: the comparator returns `a` exactly when `a` is strictly greater
/// than `b`, and `b` otherwise. For distinct operands the choice can be
/// read off the result; when the operands are one and the same value the
/// two readings coincide, so the biconditional is stated for distinct
/// operands only.
pub proof fn lemma_selects_greater<T: PartialOrd>(a: T, b: T)
    ensures
        a.is_gt(&b) ==> larger_of(a, b) == a,
        !a.is_gt(&b) ==> larger_of(a, b) == b,
        a != b ==> (larger_of(a, b) == a <==> a.is_gt(&b)),
{
}

/// Law: the comparator is deterministic. Its contract pins the result
/// down, so any two results obtained from the same pair of operands are
/// equal.
pub proof fn lemma_deterministic<T: PartialOrd>(a: T, b: T, r1: T, r2: T)
    requires
        r1 == larger_of(a, b),
        r2 == larger_of(a, b),
    ensures
        r1 == r2,
{
}

/// Law: a tie resolves to the second operand. This holds both when the
/// operands are equal values and when the ordering judges them equal.
pub proof fn lemma_tie_resolves_to_second<T: PartialOrd>(a: T, b: T)
    requires
        a == b || a.partial_cmp_spec(&b) == Some(Ordering::Equal),
    ensures
        larger_of(a, b) == b,
{
}

} // verus!
