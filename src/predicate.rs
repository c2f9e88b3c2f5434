//! Function-like types that check an invariant and describe why it failed.
use vstd::prelude::*;

verus! {

/// Function-like type that checks an invariant of one value
/// and, when the value is invalid, hands back an error describing why.
pub trait Test<Input>: Sized {
    /// Adjective describing this test: if we test A,
    /// then this is B in "A is not B."
    const ADJECTIVE: &'static str;

    /// Why a value was rejected.
    type Error: Describe;

    /// Whether `input` satisfies this invariant.
    spec fn holds(input: Input) -> bool;

    /// Check whether a given term satisfies this invariant.
    fn test(input: &Input) -> (r: Result<(), Self::Error>)
        ensures
            r is Ok <==> Self::holds(*input),
    ;
}

/// Function-like type that checks an invariant of an ordered pair of values,
/// for example of two adjacent elements of a sequence.
pub trait PairTest<Input>: Sized {
    /// Adjective describing this test: if we test A and B,
    /// then this is C in "A and B are not C."
    const ADJECTIVE: &'static str;

    /// Why a pair was rejected.
    type Error: Describe;

    /// Whether the pair `(fst, snd)` satisfies this invariant.
    spec fn holds(fst: Input, snd: Input) -> bool;

    /// Check whether a given pair satisfies this invariant.
    fn test(fst: &Input, snd: &Input) -> (r: Result<(), Self::Error>)
        ensures
            r is Ok <==> Self::holds(*fst, *snd),
    ;
}

/// Values that can explain themselves in a human-readable message.
pub trait Describe {
    /// A human-readable message.
    fn describe(&self) -> String;
}

} // verus!
