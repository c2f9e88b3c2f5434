//! Sequences in which each adjacent pair of elements satisfies a given invariant.
use core::marker::PhantomData;
use vstd::prelude::*;

use crate::predicate::{Describe, PairTest, Test};
use crate::text::{debug_text, decimal, decimal_text};
use vstd::string::StringExecFns;

verus! {

/// Invariant of a sequence: each adjacent pair of elements satisfies `Invariant`.
#[derive(Debug, Default, PartialEq, Eq, PartialOrd, Ord, Hash)]
pub struct AllPairs<Invariant, Input>(PhantomData<Invariant>, PhantomData<Input>);

impl<Item: core::fmt::Debug, Invariant: PairTest<Item>> Test<Vec<Item>> for AllPairs<Invariant, Vec<Item>> {
    const ADJECTIVE: &'static str = "all pairwise valid";

    type Error = NotAllPairs<Item, Invariant>;

    open spec fn holds(input: Vec<Item>) -> bool {
        forall|j: int|
            0 <= j && j + 1 < input@.len() ==> #[trigger] Invariant::holds(
                input@[j],
                input@[j + 1],
            )
    }

    /// Test the adjacent pairs left to right and report the first one that fails.
    fn test(input: &Vec<Item>) -> (r: Result<(), NotAllPairs<Item, Invariant>>)
        ensures
            r matches Err(e) ==> {
                &&& e.index_of_fst + 1 < input@.len()
                &&& !Invariant::holds(input@[e.index_of_fst as int], input@[e.index_of_fst + 1])
                &&& call_ensures(
                    Invariant::test,
                    (&input@[e.index_of_fst as int], &input@[e.index_of_fst + 1]),
                    Err(e.error),
                )
                &&& forall|j: int|
                    0 <= j < e.index_of_fst ==> #[trigger] Invariant::holds(
                        input@[j],
                        input@[j + 1],
                    )
            },
    {
        if input.len() == 0 {
            return Ok(());
        }
        let mut index: usize = 1;
        while index < input.len()
            invariant
                1 <= index <= input@.len(),
                forall|j: int|
                    0 <= j && j + 1 < index ==> #[trigger] Invariant::holds(
                        input@[j],
                        input@[j + 1],
                    ),
            decreases input@.len() - index,
        {
            match Invariant::test(&input[index - 1], &input[index]) {
                Ok(()) => {},
                Err(error) => {
                    proof {
                        let j = index - 1;
                        assert(!Invariant::holds(input@[j as int], input@[j + 1]));
                    }
                    let elem_fst = debug_text(&input[index - 1]);
                    let elem_snd = debug_text(&input[index]);
                    return Err(
                        NotAllPairs {
                            elem_fst,
                            elem_snd,
                            error,
                            index_of_fst: index - 1,
                            phantom: PhantomData,
                        },
                    );
                },
            }
            index += 1;
        }
        Ok(())
    }
}

/// An adjacent pair of elements of a sequence did not satisfy the given invariant.
#[non_exhaustive]
pub struct NotAllPairs<Item, Invariant: PairTest<Item>> {
    /// Debug rendering of the first element of the pair.
    pub elem_fst: String,
    /// Debug rendering of the second element of the pair.
    pub elem_snd: String,
    /// Why this pair was not valid.
    pub error: Invariant::Error,
    /// How many elements came before the first element of this pair.
    pub index_of_fst: usize,
    /// The type of the elements.
    pub phantom: PhantomData<Item>,
}

/// The position of the second element of a pair, as written in a message.
pub open spec fn index_of_snd_text(index_of_fst: usize) -> Seq<char> {
    if index_of_fst < usize::MAX {
        decimal((index_of_fst + 1) as nat)
    } else {
        "[`usize` overflow]"@
    }
}

impl<Item, Invariant: PairTest<Item>> Describe for NotAllPairs<Item, Invariant> {
    /// `Elements #<i> and #<i + 1> (<first> and <second>) were not <adjective>: <error>`
    fn describe(&self) -> (r: String)
        ensures
            exists|error: String|
                #[trigger] call_ensures(<Invariant::Error as Describe>::describe, (&self.error,), error)
                    && r@ == "Elements #"@ + decimal(self.index_of_fst as nat) + " and #"@
                    + index_of_snd_text(self.index_of_fst) + " ("@ + self.elem_fst@ + " and "@ + self.elem_snd@
                    + ") were not "@ + Invariant::ADJECTIVE@ + ": "@ + error@,
    {
        let error = self.error.describe();
        let mut s = String::from_str("Elements #");
        s.append(decimal_text(self.index_of_fst as u128).as_str());
        s.append(" and #");
        match self.index_of_fst.checked_add(1) {
            Some(index_of_snd) => s.append(decimal_text(index_of_snd as u128).as_str()),
            None => s.append("[`usize` overflow]"),
        }
        s.append(" (");
        s.append(self.elem_fst.as_str());
        s.append(" and ");
        s.append(self.elem_snd.as_str());
        s.append(") were not ");
        s.append(Invariant::ADJECTIVE);
        s.append(": ");
        s.append(error.as_str());
        assert(s@ == "Elements #"@ + decimal(self.index_of_fst as nat) + " and #"@
            + index_of_snd_text(self.index_of_fst) + " ("@ + self.elem_fst@ + " and "@ + self.elem_snd@
            + ") were not "@ + Invariant::ADJECTIVE@ + ": "@ + error@);
        s
    }
}

} // verus!
