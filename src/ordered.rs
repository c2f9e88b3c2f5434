//! Types whose comparisons behave as their specifications say.
use vstd::prelude::*;
use vstd::std_specs::cmp::{PartialEqSpec, PartialOrdSpec};

verus! {

/// Types whose `==` and `partial_cmp` compute exactly
/// `eq_spec` and `partial_cmp_spec`, so that a comparison at run time
/// decides the property that a specification states.
pub trait Comparable: PartialOrd + Sized {
    /// The comparisons of this type follow their specifications.
    proof fn lemma_comparisons_obey_spec()
        ensures
            <Self as PartialEqSpec>::obeys_eq_spec(),
            <Self as PartialOrdSpec>::obeys_partial_cmp_spec(),
    ;
}

impl Comparable for u8 {
    proof fn lemma_comparisons_obey_spec() {
    }
}

impl Comparable for i8 {
    proof fn lemma_comparisons_obey_spec() {
    }
}

impl Comparable for u16 {
    proof fn lemma_comparisons_obey_spec() {
    }
}

impl Comparable for i16 {
    proof fn lemma_comparisons_obey_spec() {
    }
}

impl Comparable for u32 {
    proof fn lemma_comparisons_obey_spec() {
    }
}

impl Comparable for i32 {
    proof fn lemma_comparisons_obey_spec() {
    }
}

impl Comparable for u64 {
    proof fn lemma_comparisons_obey_spec() {
    }
}

impl Comparable for i64 {
    proof fn lemma_comparisons_obey_spec() {
    }
}

impl Comparable for u128 {
    proof fn lemma_comparisons_obey_spec() {
    }
}

impl Comparable for i128 {
    proof fn lemma_comparisons_obey_spec() {
    }
}

impl Comparable for usize {
    proof fn lemma_comparisons_obey_spec() {
    }
}

impl Comparable for isize {
    proof fn lemma_comparisons_obey_spec() {
    }
}

} // verus!
