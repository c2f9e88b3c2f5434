//! Non-negative terms (defined by comparison to zero).
use core::cmp::Ordering;
use core::marker::PhantomData;
use vstd::prelude::*;
use vstd::std_specs::cmp::PartialOrdSpec;
use vstd::string::StringExecFns;

use crate::ordered::Comparable;
use crate::predicate::{Describe, Test};
use crate::sigma::Sigma;
use crate::text::debug_text;
use crate::zero::Zero;

verus! {

/// A term expected to be non-negative was not.
#[derive(Clone, Copy, Debug, PartialEq, Eq, PartialOrd, Ord, Hash)]
pub struct NotNonNegative<Input>(pub Input);

impl<Input: Zero + core::fmt::Debug> Describe for NotNonNegative<Input> {
    /// `<value> < <zero>`
    fn describe(&self) -> (r: String)
        ensures
            exists|value: Seq<char>, zero: Seq<char>| r@ == value + " < "@ + zero,
    {
        let value = debug_text(&self.0);
        let zero = debug_text(&Input::zero());
        let mut s = value.clone();
        s.append(" < ");
        s.append(zero.as_str());
        assert(s@ == value@ + " < "@ + zero@);
        s
    }
}

/// Non-negative terms (defined by comparison to zero).
pub type NonNegative<Input> = Sigma<Input, NonNegativeInvariant<Input>>;

/// Non-negative terms (defined by comparison to zero).
#[derive(Debug, Default, PartialEq, Eq, PartialOrd, Ord, Hash)]
pub struct NonNegativeInvariant<Input>(PhantomData<Input>);

impl<Input: Comparable + Zero + Copy + core::fmt::Debug> Test<Input> for NonNegativeInvariant<Input> {
    const ADJECTIVE: &'static str = "non-negative";

    type Error = NotNonNegative<Input>;

    open spec fn holds(input: Input) -> bool {
        input.partial_cmp_spec(&Input::spec_zero()) matches Some(Ordering::Greater | Ordering::Equal)
    }

    fn test(input: &Input) -> (r: Result<(), NotNonNegative<Input>>)
        ensures
            r matches Err(e) ==> e.0 == *input,
    {
        proof {
            Input::lemma_comparisons_obey_spec();
        }
        if *input >= Input::zero() {
            Ok(())
        } else {
            Err(NotNonNegative(*input))
        }
    }
}

} // verus!
