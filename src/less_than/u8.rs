//! Terms of type `u8` less than a constant.
use vstd::prelude::*;
use vstd::string::StringExecFns;

use crate::predicate::{Describe, Test};
use crate::sigma::Sigma;
use crate::text::{decimal, decimal_text};

verus! {

/// Terms less than a constant.
pub type LessThan<const N: u8> = Sigma<u8, LessThanInvariant<N>>;

/// Terms less than a constant.
#[derive(Clone, Copy, Debug, Default, PartialEq, Eq, PartialOrd, Ord, Hash)]
pub struct LessThanInvariant<const N: u8>;

impl<const N: u8> Test<u8> for LessThanInvariant<N> {
    const ADJECTIVE: &'static str = "less than the bound";

    type Error = NotLessThan<N>;

    open spec fn holds(input: u8) -> bool {
        input < N
    }

    fn test(input: &u8) -> (r: Result<(), NotLessThan<N>>)
        ensures
            r matches Err(e) ==> e.0 == *input,
    {
        if *input < N {
            Ok(())
        } else {
            Err(NotLessThan(*input))
        }
    }
}

/// A term expected to be less than a constant was not.
#[derive(Clone, Copy, Debug, PartialEq, Eq, PartialOrd, Ord, Hash)]
pub struct NotLessThan<const N: u8>(pub u8);

impl<const N: u8> Describe for NotLessThan<N> {
    /// `<value> >= <bound>`
    fn describe(&self) -> (r: String)
        ensures
            r@ == decimal(self.0 as nat) + " >= "@ + decimal(N as nat),
    {
        let mut s = decimal_text(self.0 as u128);
        s.append(" >= ");
        s.append(decimal_text(N as u128).as_str());
        s
    }
}

} // verus!
