//! Finite terms (e.g. for floating points, not `NaN`, infinite, etc.).
use core::marker::PhantomData;
use vstd::prelude::*;
use vstd::string::StringExecFns;

use crate::predicate::{Describe, Test};
use crate::sigma::Sigma;

verus! {

/// Types that can represent infinite values.
pub trait CanBeInfinite {
    /// Whether this value is finite (i.e. not infinite, `NaN`, etc).
    spec fn is_finite_value(&self) -> bool;

    /// Check that this value is finite (i.e. not infinite, `NaN`, etc).
    fn check_finite(&self) -> (r: bool)
        ensures
            r == self.is_finite_value(),
    ;
}

/// Finite terms (e.g. for floating points, not `NaN`, infinite, etc.).
pub type Finite<Input> = Sigma<Input, FiniteInvariant<Input>>;

/// Finite terms (e.g. for floating points, not `NaN`, infinite, etc.).
#[derive(Debug, Default, PartialEq, Eq, PartialOrd, Ord, Hash)]
pub struct FiniteInvariant<Input>(PhantomData<Input>);

impl<Input: CanBeInfinite> Test<Input> for FiniteInvariant<Input> {
    const ADJECTIVE: &'static str = "finite";

    type Error = NotFinite;

    open spec fn holds(input: Input) -> bool {
        input.is_finite_value()
    }

    fn test(input: &Input) -> (r: Result<(), NotFinite>) {
        if input.check_finite() {
            Ok(())
        } else {
            Err(NotFinite)
        }
    }
}

/// A term expected to be finite was not.
#[non_exhaustive]
#[derive(Clone, Copy, Debug, PartialEq, Eq, Structural, PartialOrd, Ord, Hash)]
pub struct NotFinite;

impl Describe for NotFinite {
    /// Names the check that failed.
    fn describe(&self) -> (r: String)
        ensures
            r@ == "`CanBeInfinite::check_finite(..)` returned `false`"@,
    {
        String::from_str("`CanBeInfinite::check_finite(..)` returned `false`")
    }
}

} // verus!
