//! Nonzero terms (defined by comparison to zero).
use core::marker::PhantomData;
use vstd::prelude::*;
use vstd::std_specs::cmp::PartialEqSpec;
use vstd::string::StringExecFns;

use crate::ordered::Comparable;
use crate::predicate::{Describe, Test};
use crate::sigma::Sigma;
use crate::text::debug_text;
use crate::zero::Zero;

verus! {

/// A term expected to be nonzero was not.
#[derive(Clone, Copy, Debug, PartialEq, Eq, PartialOrd, Ord, Hash)]
pub struct NotNonZero<Input>(pub Input);

impl<Input: Zero + core::fmt::Debug> Describe for NotNonZero<Input> {
    /// `<value> == <zero>`
    fn describe(&self) -> (r: String)
        ensures
            exists|value: Seq<char>, zero: Seq<char>| r@ == value + " == "@ + zero,
    {
        let value = debug_text(&self.0);
        let zero = debug_text(&Input::zero());
        let mut s = value.clone();
        s.append(" == ");
        s.append(zero.as_str());
        assert(s@ == value@ + " == "@ + zero@);
        s
    }
}

/// Nonzero terms (defined by comparison to zero).
pub type NonZero<Input> = Sigma<Input, NonZeroInvariant<Input>>;

/// Nonzero terms (defined by comparison to zero).
#[derive(Debug, Default, PartialEq, Eq, PartialOrd, Ord, Hash)]
pub struct NonZeroInvariant<Input>(PhantomData<Input>);

impl<Input: Comparable + Zero + Copy + core::fmt::Debug> Test<Input> for NonZeroInvariant<Input> {
    const ADJECTIVE: &'static str = "nonzero";

    type Error = NotNonZero<Input>;

    open spec fn holds(input: Input) -> bool {
        !input.eq_spec(&Input::spec_zero())
    }

    fn test(input: &Input) -> (r: Result<(), NotNonZero<Input>>)
        ensures
            r matches Err(e) ==> e.0 == *input,
    {
        proof {
            Input::lemma_comparisons_obey_spec();
        }
        if *input != Input::zero() {
            Ok(())
        } else {
            Err(NotNonZero(*input))
        }
    }
}

} // verus!
