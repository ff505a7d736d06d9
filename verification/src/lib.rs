//! Secondary logical operations — implication, exclusive-or and equivalence —
//! for the primitive `bool` type.
//!
//! The operations are exposed through the [`BoolTools`] trait, which is
//! sealed: it requires a private marker trait that only `bool` implements,
//! so no type outside this crate can provide the same capability.

use vstd::prelude::*;

mod private;

verus! {

/// What implication returns: false exactly when `a` is true and `b` is false.
pub open spec fn spec_implication(a: bool, b: bool) -> bool {
    !a || b
}

/// What exclusive-or returns: true exactly when `a` and `b` differ.
pub open spec fn spec_xor(a: bool, b: bool) -> bool {
    (a || b) && (!a || !b)
}

/// What equivalence returns: true exactly when `a` and `b` agree; it is the
/// negation of exclusive-or.
pub open spec fn spec_equivalence(a: bool, b: bool) -> bool {
    !spec_xor(a, b)
}

/// Secondary boolean operations for the `bool` primitive type.
///
/// The trait is sealed: its supertrait is a private marker that only `bool`
/// implements, so the capability cannot be implemented for any other type.
pub trait BoolTools: private::Sealed {
    /// The logical implication operation.
    ///
    /// Truth table:
    ///
    /// | self    | rhs     | output  |
    /// |---------|---------|---------|
    /// | `true`  | `true`  | `true`  |
    /// | `true`  | `false` | `false` |
    /// | `false` | `true`  | `true`  |
    /// | `false` | `false` | `true`  |
    fn implication(self, rhs: Self) -> Self;

    /// The logical exclusive-or operation.
    ///
    /// Truth table:
    ///
    /// | self    | rhs     | output  |
    /// |---------|---------|---------|
    /// | `true`  | `true`  | `false` |
    /// | `true`  | `false` | `true`  |
    /// | `false` | `true`  | `true`  |
    /// | `false` | `false` | `false` |
    fn xor(self, rhs: Self) -> Self;

    /// The logical equivalence operation.
    ///
    /// Truth table:
    ///
    /// | self    | rhs     | output  |
    /// |---------|---------|---------|
    /// | `true`  | `true`  | `true`  |
    /// | `true`  | `false` | `false` |
    /// | `false` | `true`  | `false` |
    /// | `false` | `false` | `true`  |
    fn equivalence(self, rhs: Self) -> Self;
}

impl BoolTools for bool {
    fn implication(self, rhs: Self) -> (r: Self)
        ensures
            r == spec_implication(self, rhs),
    {
        !self || rhs
    }

    fn xor(self, rhs: Self) -> (r: Self)
        ensures
            r == spec_xor(self, rhs),
    {
        (self || rhs) && (!self || !rhs)
    }

    fn equivalence(self, rhs: Self) -> (r: Self)
        ensures
            r == spec_equivalence(self, rhs),
    {
        !self.xor(rhs)
    }
}

/// Equivalence is the negation of exclusive-or: for all `a` and `b`,
/// `equivalence(a, b) == !xor(a, b)`.
pub proof fn lemma_equivalence_is_negated_xor(a: bool, b: bool)
    ensures
        spec_equivalence(a, b) == !spec_xor(a, b),
{
}

/// Exclusive-or is self-inverse: for all `a`, `xor(a, a) == false`.
pub proof fn lemma_xor_self_inverse(a: bool)
    ensures
        spec_xor(a, a) == false,
{
}

/// Implication identities: for all `a`, `implication(true, a) == a` and
/// `implication(a, true) == true`.
pub proof fn lemma_implication_identity(a: bool)
    ensures
        spec_implication(true, a) == a,
        spec_implication(a, true) == true,
{
}

/// Equivalence is reflexive: for all `a`, `equivalence(a, a) == true`.
pub proof fn lemma_equivalence_reflexive(a: bool)
    ensures
        spec_equivalence(a, a) == true,
{
}

/// Exclusive-or is commutative: for all `a` and `b`,
/// `xor(a, b) == xor(b, a)`.
pub proof fn lemma_xor_commutative(a: bool, b: bool)
    ensures
        spec_xor(a, b) == spec_xor(b, a),
{
}

/// Equivalence is commutative: for all `a` and `b`,
/// `equivalence(a, b) == equivalence(b, a)`.
pub proof fn lemma_equivalence_commutative(a: bool, b: bool)
    ensures
        spec_equivalence(a, b) == spec_equivalence(b, a),
{
}

} // verus!
