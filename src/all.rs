//! Sequences in which each element satisfies a given invariant.
use core::marker::PhantomData;
use vstd::prelude::*;

use crate::predicate::{Describe, Test};
use crate::text::{debug_text, decimal, decimal_text};
use vstd::string::StringExecFns;

verus! {

/// Invariant of a sequence: each element satisfies `Invariant`.
#[derive(Debug, Default, PartialEq, Eq, PartialOrd, Ord, Hash)]
pub struct All<Invariant, Input>(PhantomData<Invariant>, PhantomData<Input>);

impl<Item: core::fmt::Debug, Invariant: Test<Item>> Test<Vec<Item>> for All<Invariant, Vec<Item>> {
    const ADJECTIVE: &'static str = "all valid";

    type Error = NotAll<Item, Invariant>;

    open spec fn holds(input: Vec<Item>) -> bool {
        forall|j: int| 0 <= j < input@.len() ==> #[trigger] Invariant::holds(input@[j])
    }

    /// Test the elements left to right and report the first one that fails.
    fn test(input: &Vec<Item>) -> (r: Result<(), NotAll<Item, Invariant>>)
        ensures
            r matches Err(e) ==> {
                &&& e.index < input@.len()
                &&& !Invariant::holds(input@[e.index as int])
                &&& call_ensures(Invariant::test, (&input@[e.index as int],), Err(e.error))
                &&& forall|j: int| 0 <= j < e.index ==> #[trigger] Invariant::holds(input@[j])
            },
    {
        let mut index: usize = 0;
        while index < input.len()
            invariant
                index <= input@.len(),
                forall|j: int| 0 <= j < index ==> #[trigger] Invariant::holds(input@[j]),
            decreases input@.len() - index,
        {
            match Invariant::test(&input[index]) {
                Ok(()) => {},
                Err(error) => {
                    let element = debug_text(&input[index]);
                    return Err(NotAll { element, error, index, phantom: PhantomData });
                },
            }
            index += 1;
        }
        Ok(())
    }
}

/// When the "all" test fails, the element it reports is the leftmost invalid one:
/// every invalid element stands at the reported index or after it.
pub proof fn lemma_all_reports_leftmost_failure<Item: core::fmt::Debug, Invariant: Test<Item>>(
    input: Vec<Item>,
    outcome: Result<(), NotAll<Item, Invariant>>,
    invalid: int,
)
    requires
        call_ensures(<All<Invariant, Vec<Item>> as Test<Vec<Item>>>::test, (&input,), outcome),
        0 <= invalid < input@.len(),
        !Invariant::holds(input@[invalid]),
    ensures
        outcome matches Err(e) && e.index <= invalid && !Invariant::holds(input@[e.index as int]),
{
}

/// An element of a sequence did not satisfy the given invariant.
#[non_exhaustive]
pub struct NotAll<Item, Invariant: Test<Item>> {
    /// Debug rendering of the first invalid element of the sequence.
    pub element: String,
    /// Why this element was not valid.
    pub error: Invariant::Error,
    /// How many elements came before this one.
    pub index: usize,
    /// The type of the elements.
    pub phantom: PhantomData<Item>,
}

impl<Item, Invariant: Test<Item>> Describe for NotAll<Item, Invariant> {
    /// `Element #<index> (<element>) was not <adjective>: <error>`
    fn describe(&self) -> (r: String)
        ensures
            exists|error: String|
                #[trigger] call_ensures(<Invariant::Error as Describe>::describe, (&self.error,), error)
                    && r@ == "Element #"@ + decimal(self.index as nat) + " ("@ + self.element@
                    + ") was not "@ + Invariant::ADJECTIVE@ + ": "@ + error@,
    {
        let error = self.error.describe();
        let mut s = String::from_str("Element #");
        s.append(decimal_text(self.index as u128).as_str());
        s.append(" (");
        s.append(self.element.as_str());
        s.append(") was not ");
        s.append(Invariant::ADJECTIVE);
        s.append(": ");
        s.append(error.as_str());
        assert(s@ == "Element #"@ + decimal(self.index as nat) + " ("@ + self.element@ + ") was not "@
            + Invariant::ADJECTIVE@ + ": "@ + error@);
        s
    }
}

} // verus!
