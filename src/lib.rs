//! Types that maintain a given invariant.
//!
//! A [`Sigma`] pairs a raw value with a zero-sized witness of an invariant
//! (a type implementing [`Test`]); the invariant holds of every value of the type.
//! Where a run-time check cannot be avoided (`try_new`, `try_also`, `modify`),
//! it is made and its failure handed back to the caller; elsewhere the caller
//! proves the invariant, so no check runs and nothing can panic.
//!
//! Invariants compose: [`All`] lifts an invariant of elements to sequences,
//! and [`AllPairs`] lifts an invariant of pairs to the adjacent pairs of a
//! sequence, which gives [`Sorted`].
mod all;
mod all_pairs;
mod finite;
pub mod less_than;
mod negative;
mod non_negative;
mod non_positive;
mod non_zero;
mod on_unit;
mod one;
mod ordered;
mod positive;
mod predicate;
mod sigma;
mod sorted;
mod text;
mod zero;

pub use all::{lemma_all_reports_leftmost_failure, All, NotAll};
pub use all_pairs::{AllPairs, NotAllPairs};
pub use finite::{CanBeInfinite, Finite, FiniteInvariant, NotFinite};
pub use negative::{Negative, NegativeInvariant, NotNegative};
pub use non_negative::{NonNegative, NonNegativeInvariant, NotNonNegative};
pub use non_positive::{NonPositive, NonPositiveInvariant, NotNonPositive};
pub use non_zero::{NonZero, NonZeroInvariant, NotNonZero};
pub use on_unit::{NotOnUnit, OnUnit, OnUnitInvariant};
pub use one::One;
pub use ordered::Comparable;
pub use positive::{NotPositive, Positive, PositiveInvariant};
pub use predicate::{Describe, PairTest, Test};
pub use sigma::{
    lemma_modify_rejects_invalid_output, lemma_new_get_round_trip, lemma_try_also_same_invariant,
    lemma_try_new_agrees_with_test, Sigma,
};
pub use sorted::{sort_outcome, OutOfOrder, Sorted, SortedInvariant, SortedPair};
pub use zero::Zero;
