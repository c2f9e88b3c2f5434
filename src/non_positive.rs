//! Non-positive terms (defined by comparison to zero).
use core::cmp::Ordering;
use core::marker::PhantomData;
use vstd::prelude::*;
use vstd::std_specs::cmp::PartialOrdSpec;
use vstd::string::StringExecFns;

use crate::ordered::Comparable;
use crate::predicate::{Describe, Test};
use crate::sigma::Sigma;
use crate::text::debug_text;
use crate::zero::Zero;

verus! {

/// A term expected to be non-positive was not.
#[derive(Clone, Copy, Debug, PartialEq, Eq, PartialOrd, Ord, Hash)]
pub struct NotNonPositive<Input>(pub Input);

impl<Input: Zero + core::fmt::Debug> Describe for NotNonPositive<Input> {
    /// `<value> > <zero>`
    fn describe(&self) -> (r: String)
        ensures
            exists|value: Seq<char>, zero: Seq<char>| r@ == value + " > "@ + zero,
    {
        let value = debug_text(&self.0);
        let zero = debug_text(&Input::zero());
        let mut s = value.clone();
        s.append(" > ");
        s.append(zero.as_str());
        assert(s@ == value@ + " > "@ + zero@);
        s
    }
}

/// Non-positive terms (defined by comparison to zero).
pub type NonPositive<Input> = Sigma<Input, NonPositiveInvariant<Input>>;

/// Non-positive terms (defined by comparison to zero).
#[derive(Debug, Default, PartialEq, Eq, PartialOrd, Ord, Hash)]
pub struct NonPositiveInvariant<Input>(PhantomData<Input>);

impl<Input: Comparable + Zero + Copy + core::fmt::Debug> Test<Input> for NonPositiveInvariant<Input> {
    const ADJECTIVE: &'static str = "non-positive";

    type Error = NotNonPositive<Input>;

    open spec fn holds(input: Input) -> bool {
        input.partial_cmp_spec(&Input::spec_zero()) matches Some(Ordering::Less | Ordering::Equal)
    }

    fn test(input: &Input) -> (r: Result<(), NotNonPositive<Input>>)
        ensures
            r matches Err(e) ==> e.0 == *input,
    {
        proof {
            Input::lemma_comparisons_obey_spec();
        }
        if *input <= Input::zero() {
            Ok(())
        } else {
            Err(NotNonPositive(*input))
        }
    }
}

} // verus!
