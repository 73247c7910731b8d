//! The meaning of the comparison the fragment emits.
//!
//! The generated equality operation reads nothing of its operands but their
//! variant discriminants. This module states that relation over a minimal
//! stand-in for a tagged-union value — a discriminant together with an
//! untouched payload — and proves the laws the two granted capabilities
//! promise: payload independence and equivalence (reflexivity, symmetry,
//! transitivity).

use vstd::prelude::*;

verus! {

/// A runtime value of a tagged union, reduced to what the generated
/// comparison reads: its variant discriminant. The payload carries everything
/// else — every field of every variant — and is wholly unconstrained: no
/// comparison operation is required of it, and none is ever applied to it.
pub struct TaggedValue<P> {
    /// Which variant the value holds.
    pub discriminant: usize,
    /// The variant's field contents, never inspected.
    pub payload: P,
}

/// The relation the generated equality operation computes: the two operands
/// carry the same variant discriminant.
pub open spec fn spec_variant_eq<P>(a: TaggedValue<P>, b: TaggedValue<P>) -> bool {
    a.discriminant == b.discriminant
}

/// The generated equality operation itself, over the stand-in value:
/// discriminant identity, payloads ignored.
pub fn variant_eq<P>(a: &TaggedValue<P>, b: &TaggedValue<P>) -> (r: bool)
    ensures
        r == spec_variant_eq(*a, *b),
{
    a.discriminant == b.discriminant
}

/// Two values of the same variant are equal, whatever their payloads hold —
/// the payload type supports no comparison and none is needed.
pub proof fn lemma_same_variant_equal<P>(a: TaggedValue<P>, b: TaggedValue<P>)
    requires
        a.discriminant == b.discriminant,
    ensures
        spec_variant_eq(a, b),
{
}

/// Two values of different variants are unequal, whatever their payloads
/// hold.
pub proof fn lemma_distinct_variants_unequal<P>(a: TaggedValue<P>, b: TaggedValue<P>)
    requires
        a.discriminant != b.discriminant,
    ensures
        !spec_variant_eq(a, b),
{
}

/// The generated relation is an equivalence: reflexive, symmetric and
/// transitive, for every value of the subject type. This is what the second,
/// marker capability asserts over the first.
pub proof fn lemma_equivalence<P>(a: TaggedValue<P>, b: TaggedValue<P>, c: TaggedValue<P>)
    ensures
        spec_variant_eq(a, a),
        spec_variant_eq(a, b) == spec_variant_eq(b, a),
        spec_variant_eq(a, b) && spec_variant_eq(b, c) ==> spec_variant_eq(a, c),
{
}

} // verus!
