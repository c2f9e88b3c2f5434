//! Negative terms (defined by comparison to zero).
use core::cmp::Ordering;
use core::marker::PhantomData;
use vstd::prelude::*;
use vstd::std_specs::cmp::PartialOrdSpec;
use vstd::string::StringExecFns;

use crate::ordered::Comparable;
use crate::predicate::{Describe, Test};
use crate::sigma::Sigma;
use crate::text::debug_text;
use crate::zero::Zero;

verus! {

/// A term expected to be negative was not.
#[derive(Clone, Copy, Debug, PartialEq, Eq, PartialOrd, Ord, Hash)]
pub struct NotNegative<Input>(pub Input);

impl<Input: Zero + core::fmt::Debug> Describe for NotNegative<Input> {
    /// `<value> >= <zero>`
    fn describe(&self) -> (r: String)
        ensures
            exists|value: Seq<char>, zero: Seq<char>| r@ == value + " >= "@ + zero,
    {
        let value = debug_text(&self.0);
        let zero = debug_text(&Input::zero());
        let mut s = value.clone();
        s.append(" >= ");
        s.append(zero.as_str());
        assert(s@ == value@ + " >= "@ + zero@);
        s
    }
}

/// Negative terms (defined by comparison to zero).
pub type Negative<Input> = Sigma<Input, NegativeInvariant<Input>>;

/// Negative terms (defined by comparison to zero).
#[derive(Debug, Default, PartialEq, Eq, PartialOrd, Ord, Hash)]
pub struct NegativeInvariant<Input>(PhantomData<Input>);

impl<Input: Comparable + Zero + Copy + core::fmt::Debug> Test<Input> for NegativeInvariant<Input> {
    const ADJECTIVE: &'static str = "negative";

    type Error = NotNegative<Input>;

    open spec fn holds(input: Input) -> bool {
        input.partial_cmp_spec(&Input::spec_zero()) == Some(Ordering::Less)
    }

    fn test(input: &Input) -> (r: Result<(), NotNegative<Input>>)
        ensures
            r matches Err(e) ==> e.0 == *input,
    {
        proof {
            Input::lemma_comparisons_obey_spec();
        }
        if *input < Input::zero() {
            Ok(())
        } else {
            Err(NotNegative(*input))
        }
    }
}

} // verus!
