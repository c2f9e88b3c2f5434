//! Sequences guaranteed to be sorted (optionally with or without duplicates).
use core::cmp::Ordering;
use vstd::prelude::*;
use vstd::std_specs::cmp::PartialOrdSpec;
use vstd::string::StringExecFns;

use crate::all_pairs::AllPairs;
use crate::ordered::Comparable;
use crate::predicate::{Describe, PairTest};
use crate::sigma::Sigma;

verus! {

/// Why two adjacent elements of a supposedly sorted sequence were out of order.
#[derive(Clone, Copy, Debug, PartialEq, Eq, Structural, PartialOrd, Ord, Hash)]
pub enum OutOfOrder {
    /// The two elements compared as equal (and duplicates were not allowed).
    Duplicate,
    /// The two elements could not be compared.
    NoDefinedComparison,
    /// The two elements compared in decreasing order.
    Reversed,
}

impl Describe for OutOfOrder {
    /// One line that names the kind of disorder.
    fn describe(&self) -> (r: String)
        ensures
            r@ == match *self {
                OutOfOrder::Duplicate =>
                    "duplicate element (not allowed since `ALLOW_DUPLICATES = false`)"@,
                OutOfOrder::NoDefinedComparison => "no defined comparison"@,
                OutOfOrder::Reversed => "reversed"@,
            },
    {
        match *self {
            OutOfOrder::Duplicate => String::from_str(
                "duplicate element (not allowed since `ALLOW_DUPLICATES = false`)",
            ),
            OutOfOrder::NoDefinedComparison => String::from_str("no defined comparison"),
            OutOfOrder::Reversed => String::from_str("reversed"),
        }
    }
}

/// Sequence guaranteed to be sorted (optionally with or without duplicates).
pub type Sorted<Input, const ALLOW_DUPLICATES: bool> = Sigma<
    Input,
    SortedInvariant<Input, ALLOW_DUPLICATES>,
>;

/// Invariant of a sorted sequence (optionally with or without duplicates).
pub type SortedInvariant<Input, const ALLOW_DUPLICATES: bool> = AllPairs<
    SortedPair<ALLOW_DUPLICATES>,
    Input,
>;

/// How an adjacent pair `(fst, snd)` fares in a sorted sequence:
/// in order if `fst < snd`, or if they are equal and duplicates are allowed.
pub open spec fn sort_outcome<Input: PartialOrd>(
    fst: Input,
    snd: Input,
    allow_duplicates: bool,
) -> Result<(), OutOfOrder> {
    match fst.partial_cmp_spec(&snd) {
        None => Err(OutOfOrder::NoDefinedComparison),
        Some(Ordering::Less) => Ok(()),
        Some(Ordering::Equal) => if allow_duplicates {
            Ok(())
        } else {
            Err(OutOfOrder::Duplicate)
        },
        Some(Ordering::Greater) => Err(OutOfOrder::Reversed),
    }
}

/// Pair guaranteed to be sorted left-to-right (optionally permitted to be equal).
#[derive(Clone, Copy, Debug, PartialEq, Eq, PartialOrd, Ord, Hash)]
pub struct SortedPair<const ALLOW_DUPLICATES: bool>;

impl<const ALLOW_DUPLICATES: bool, Input: Comparable> PairTest<Input> for SortedPair<
    ALLOW_DUPLICATES,
> {
    const ADJECTIVE: &'static str = "sorted";

    type Error = OutOfOrder;

    open spec fn holds(fst: Input, snd: Input) -> bool {
        sort_outcome(fst, snd, ALLOW_DUPLICATES) is Ok
    }

    fn test(fst: &Input, snd: &Input) -> (r: Result<(), OutOfOrder>)
        ensures
            r == sort_outcome(*fst, *snd, ALLOW_DUPLICATES),
    {
        proof {
            Input::lemma_comparisons_obey_spec();
        }
        match fst.partial_cmp(snd) {
            None => Err(OutOfOrder::NoDefinedComparison),
            Some(Ordering::Less) => Ok(()),
            Some(Ordering::Equal) => {
                if ALLOW_DUPLICATES {
                    Ok(())
                } else {
                    Err(OutOfOrder::Duplicate)
                }
            },
            Some(Ordering::Greater) => Err(OutOfOrder::Reversed),
        }
    }
}

} // verus!
