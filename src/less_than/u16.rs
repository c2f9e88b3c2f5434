//! Terms of type `u16` less than a constant.
use vstd::prelude::*;
use vstd::string::StringExecFns;

use crate::predicate::{Describe, Test};
use crate::sigma::Sigma;
use crate::text::{decimal, decimal_text};

verus! {

/// Terms less than a constant.
pub type LessThan<const N: u16> = Sigma<u16, LessThanInvariant<N>>;

/// Terms less than a constant.
#[derive(Clone, Copy, Debug, Default, PartialEq, Eq, PartialOrd, Ord, Hash)]
pub struct LessThanInvariant<const N: u16>;

impl<const N: u16> Test<u16> for LessThanInvariant<N> {
    const ADJECTIVE: &'static str = "less than the bound";

    type Error = NotLessThan<N>;

    open spec fn holds(input: u16) -> bool {
        input < N
    }

    fn test(input: &u16) -> (r: Result<(), NotLessThan<N>>)
        ensures
            r matches Err(e) ==> e.0 == *input,
    {
        if *input < N {
            Ok(())
        } else {
            Err(NotLessThan(*input))
        }
    }
}

/// A term expected to be less than a constant was not.
#[derive(Clone, Copy, Debug, PartialEq, Eq, PartialOrd, Ord, Hash)]
pub struct NotLessThan<const N: u16>(pub u16);

impl<const N: u16> Describe for NotLessThan<N> {
    /// `<value> >= <bound>`
    fn describe(&self) -> (r: String)
        ensures
            r@ == decimal(self.0 as nat) + " >= "@ + decimal(N as nat),
    {
        let mut s = decimal_text(self.0 as u128);
        s.append(" >= ");
        s.append(decimal_text(N as u128).as_str());
        s
    }
}

} // verus!
