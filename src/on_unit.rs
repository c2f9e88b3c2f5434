//! Terms on the unit interval (between 0 and 1),
//! either inclusive or exclusive at each extreme.
use core::cmp::Ordering;
use core::marker::PhantomData;
use vstd::prelude::*;
use vstd::std_specs::cmp::PartialOrdSpec;
use vstd::string::StringExecFns;

use crate::one::One;
use crate::ordered::Comparable;
use crate::predicate::{Describe, Test};
use crate::sigma::Sigma;
use crate::text::debug_text;
use crate::zero::Zero;

verus! {

/// A term expected to be on the unit interval was not.
#[derive(Clone, Copy, Debug, PartialEq, Eq, PartialOrd, Ord, Hash)]
pub struct NotOnUnit<Input, const INCLUSIVE_AT_ZERO: bool, const INCLUSIVE_AT_ONE: bool>(
    pub Input,
);

/// How a message names the interval: `Not on [0, 1): `, with brackets that
/// show which ends are inclusive.
pub open spec fn interval_prefix(inclusive_at_zero: bool, inclusive_at_one: bool) -> Seq<char> {
    "Not on "@ + (if inclusive_at_zero {
        "["@
    } else {
        "("@
    }) + "0, 1"@ + (if inclusive_at_one {
        "]"@
    } else {
        ")"@
    }) + ": "@
}

impl<
    Input: core::fmt::Debug,
    const INCLUSIVE_AT_ZERO: bool,
    const INCLUSIVE_AT_ONE: bool,
> Describe for NotOnUnit<Input, INCLUSIVE_AT_ZERO, INCLUSIVE_AT_ONE> {
    /// The interval, then the value.
    fn describe(&self) -> (r: String)
        ensures
            exists|value: Seq<char>|
                r@ == #[trigger] (interval_prefix(INCLUSIVE_AT_ZERO, INCLUSIVE_AT_ONE) + value),
    {
        let value = debug_text(&self.0);
        let mut s = String::from_str("Not on ");
        s.append(
            if INCLUSIVE_AT_ZERO {
                "["
            } else {
                "("
            },
        );
        s.append("0, 1");
        s.append(
            if INCLUSIVE_AT_ONE {
                "]"
            } else {
                ")"
            },
        );
        s.append(": ");
        s.append(value.as_str());
        assert(s@ == interval_prefix(INCLUSIVE_AT_ZERO, INCLUSIVE_AT_ONE) + value@);
        s
    }
}

/// Terms on the unit interval (between 0 and 1),
/// either inclusive or exclusive at each extreme.
pub type OnUnit<Input, const INCLUSIVE_AT_ZERO: bool, const INCLUSIVE_AT_ONE: bool> = Sigma<
    Input,
    OnUnitInvariant<Input, INCLUSIVE_AT_ZERO, INCLUSIVE_AT_ONE>,
>;

/// Terms on the unit interval (between 0 and 1),
/// either inclusive or exclusive at each extreme.
#[derive(Debug, Default, PartialEq, Eq, PartialOrd, Ord, Hash)]
pub struct OnUnitInvariant<Input, const INCLUSIVE_AT_ZERO: bool, const INCLUSIVE_AT_ONE: bool>(
    PhantomData<Input>,
);

impl<
    Input: Comparable + Zero + One + Copy + core::fmt::Debug,
    const INCLUSIVE_AT_ZERO: bool,
    const INCLUSIVE_AT_ONE: bool,
> Test<Input> for OnUnitInvariant<Input, INCLUSIVE_AT_ZERO, INCLUSIVE_AT_ONE> {
    const ADJECTIVE: &'static str = "on the unit interval";

    type Error = NotOnUnit<Input, INCLUSIVE_AT_ZERO, INCLUSIVE_AT_ONE>;

    /// Above zero (or equal to it, if inclusive there)
    /// and below one (or equal to it, if inclusive there).
    open spec fn holds(input: Input) -> bool {
        &&& match input.partial_cmp_spec(&Input::spec_zero()) {
            Some(Ordering::Greater) => true,
            Some(Ordering::Equal) => INCLUSIVE_AT_ZERO,
            _ => false,
        }
        &&& match input.partial_cmp_spec(&Input::spec_one()) {
            Some(Ordering::Less) => true,
            Some(Ordering::Equal) => INCLUSIVE_AT_ONE,
            _ => false,
        }
    }

    fn test(input: &Input) -> (r: Result<(), NotOnUnit<Input, INCLUSIVE_AT_ZERO, INCLUSIVE_AT_ONE>>)
        ensures
            r matches Err(e) ==> e.0 == *input,
    {
        proof {
            Input::lemma_comparisons_obey_spec();
        }
        match input.partial_cmp(&Input::zero()) {
            None | Some(Ordering::Less) => return Err(NotOnUnit(*input)),
            Some(Ordering::Equal) => {
                if !INCLUSIVE_AT_ZERO {
                    return Err(NotOnUnit(*input));
                }
            },
            Some(Ordering::Greater) => {},
        }
        match input.partial_cmp(&Input::one()) {
            None | Some(Ordering::Greater) => return Err(NotOnUnit(*input)),
            Some(Ordering::Equal) => {
                if !INCLUSIVE_AT_ONE {
                    return Err(NotOnUnit(*input));
                }
            },
            Some(Ordering::Less) => {},
        }
        Ok(())
    }
}

} // verus!
