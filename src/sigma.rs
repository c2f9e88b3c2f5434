//! Type that maintains a given invariant.
use core::marker::PhantomData;
use vstd::prelude::*;

use crate::finite::CanBeInfinite;
use crate::predicate::Test;
use crate::text::debug_text;
use vstd::string::StringExecFns;

verus! {

/// A raw value together with a zero-sized witness that `Invariant` holds of it.
///
/// Every value of this type satisfies `Invariant`: constructors check it
/// (or demand a proof of it) and every operation that changes the raw value
/// checks it again.
#[derive(Debug, PartialEq, Eq, PartialOrd, Ord, Hash)]
pub struct Sigma<Raw, Invariant: Test<Raw>> {
    /// Only carries the invariant in the type.
    phantom: PhantomData<Invariant>,
    /// The wrapped value.
    raw: Raw,
}

impl<Raw, Invariant: Test<Raw>> View for Sigma<Raw, Invariant> {
    type V = Raw;

    /// The wrapped value.
    closed spec fn view(&self) -> Raw {
        self.raw
    }
}

impl<Raw, Invariant: Test<Raw>> Sigma<Raw, Invariant> {
    /// Every sigma-typed value satisfies its invariant;
    /// `use_type_invariant` brings this fact into a proof.
    #[verifier::type_invariant]
    pub open spec fn satisfies_invariant(self) -> bool {
        Invariant::holds(self@)
    }

    /// Create a new sigma-typed value from a raw value known to satisfy the invariant.
    pub fn new(raw: Raw) -> (r: Self)
        requires
            Invariant::holds(raw),
        ensures
            r@ == raw,
    {
        Sigma { phantom: PhantomData, raw }
    }

    /// Create a new sigma-typed value by checking the invariant.
    /// # Errors
    /// If the invariant does not hold.
    /// In this case, return the original input unchanged.
    pub fn try_new(raw: Raw) -> (r: Result<Self, Raw>)
        ensures
            r is Ok <==> Invariant::holds(raw),
            r matches Ok(s) ==> s@ == raw,
            r matches Err(x) ==> x == raw,
    {
        let valid = Invariant::test(&raw).is_ok();
        if valid {
            Ok(Sigma { phantom: PhantomData, raw })
        } else {
            Err(raw)
        }
    }

    /// Unwrap the internal value that satisfies the invariant.
    /// If you're using this to create another value that should
    /// also maintain an invariant, use `map` instead.
    pub fn get(self) -> (r: Raw)
        ensures
            r == self@,
            Invariant::holds(r),
    {
        proof {
            use_type_invariant(&self);
        }
        self.raw
    }

    /// Borrow the internal value that satisfies the invariant.
    pub fn get_ref(&self) -> (r: &Raw)
        ensures
            *r == self@,
            Invariant::holds(*r),
    {
        proof {
            use_type_invariant(self);
        }
        &self.raw
    }

    /// Check the invariant.
    /// It always holds: this brings that fact into the caller's reasoning.
    pub fn check(&self)
        ensures
            Invariant::holds(self@),
    {
        proof {
            use_type_invariant(self);
        }
    }

    /// Check the invariant at run time, without panicking.
    /// It always holds, so the result is always `Ok`.
    pub fn try_check(&self) -> (r: Result<(), Invariant::Error>)
        ensures
            r is Ok,
            Invariant::holds(self@),
    {
        proof {
            use_type_invariant(self);
        }
        Invariant::test(&self.raw)
    }

    /// Without changing its internal value,
    /// view one sigma-typed value as satisfying another invariant,
    /// which must be known to hold of the value.
    pub fn also<OtherInvariant: Test<Raw>>(self) -> (r: Sigma<Raw, OtherInvariant>)
        requires
            OtherInvariant::holds(self@),
        ensures
            r@ == self@,
    {
        Sigma::new(self.get())
    }

    /// Without changing its internal value,
    /// try to view one sigma-typed value as satisfying another invariant
    /// by checking the latter invariant at run time.
    /// # Errors
    /// If the latter invariant does not hold; then the value is handed back unchanged.
    pub fn try_also<OtherInvariant: Test<Raw>>(self) -> (r: Result<Sigma<Raw, OtherInvariant>, Self>)
        ensures
            r is Ok <==> OtherInvariant::holds(self@),
            r matches Ok(s) ==> s@ == self@,
            r matches Err(s) ==> s@ == self@,
    {
        proof {
            use_type_invariant(&self);
        }
        match Sigma::try_new(self.raw) {
            Ok(other) => Ok(other),
            Err(raw) => Err(Sigma { phantom: PhantomData, raw }),
        }
    }

    /// Unwrap the internal value and hand it to a function.
    pub fn get_by<Y, F: FnOnce(Raw) -> Y>(self, f: F) -> (y: Y)
        requires
            f.requires((self@,)),
        ensures
            f.ensures((self@,), y),
    {
        f(self.get())
    }

    /// Lend the internal value to a function.
    pub fn get_by_ref<Y, F: FnOnce(&Raw) -> Y>(&self, f: F) -> (y: Y)
        requires
            f.requires((&self@,)),
        ensures
            f.ensures((&self@,), y),
    {
        f(self.get_ref())
    }

    /// Apply a function to the internal value (which satisfies this invariant),
    /// and wrap the output under a (possibly different) invariant,
    /// which must hold of every output the function may give.
    pub fn map<OtherRaw, OtherInvariant: Test<OtherRaw>, F: FnOnce(Raw) -> OtherRaw>(self, f: F) -> (r:
        Sigma<OtherRaw, OtherInvariant>)
        requires
            f.requires((self@,)),
            forall|out: OtherRaw| #[trigger] f.ensures((self@,), out) ==> OtherInvariant::holds(out),
        ensures
            f.ensures((self@,), r@),
    {
        let raw = f(self.get());
        Sigma::new(raw)
    }

    /// Apply a function to a borrow of the internal value,
    /// and wrap the output under a (possibly different) invariant,
    /// which must hold of every output the function may give.
    pub fn map_ref<OtherRaw, OtherInvariant: Test<OtherRaw>, F: FnOnce(&Raw) -> OtherRaw>(
        &self,
        f: F,
    ) -> (r: Sigma<OtherRaw, OtherInvariant>)
        requires
            f.requires((&self@,)),
            forall|out: OtherRaw| #[trigger] f.ensures((&self@,), out) ==> OtherInvariant::holds(out),
        ensures
            f.ensures((&self@,), r@),
    {
        let raw = f(self.get_ref());
        Sigma::new(raw)
    }

    /// Replace the internal value by the output of a function of it,
    /// if that output satisfies this invariant.
    /// # Errors
    /// If the output does not satisfy the invariant;
    /// then it is handed back and this value is left unchanged.
    pub fn modify<F: FnOnce(&Raw) -> Raw>(&mut self, f: F) -> (r: Result<(), Raw>)
        requires
            f.requires((&old(self)@,)),
        ensures
            r is Ok ==> f.ensures((&old(self)@,), final(self)@),
            r is Ok ==> Invariant::holds(final(self)@),
            r matches Err(rejected) ==> {
                &&& f.ensures((&old(self)@,), rejected)
                &&& !Invariant::holds(rejected)
                &&& final(self)@ == old(self)@
            },
    {
        let raw = f(&self.raw);
        let valid = Invariant::test(&raw).is_ok();
        if valid {
            self.raw = raw;
            Ok(())
        } else {
            Err(raw)
        }
    }
}

impl<Raw: core::fmt::Debug, Invariant: Test<Raw>> Sigma<Raw, Invariant> {
    /// Debug rendering of the internal value, preceded by the invariant's
    /// adjective in parentheses (`(positive) 5`) when `annotate` is set.
    pub fn debug_string(&self, annotate: bool) -> (r: String)
        ensures
            exists|value: Seq<char>|
                r@ == #[trigger] (annotation::<Raw, Invariant>(annotate) + value),
    {
        let value = debug_text(&self.raw);
        let mut s = String::new();
        if annotate {
            s.append("(");
            s.append(Invariant::ADJECTIVE);
            s.append(") ");
        }
        s.append(value.as_str());
        assert(s@ == annotation::<Raw, Invariant>(annotate) + value@);
        s
    }
}

/// What precedes an annotated rendering: the invariant's adjective in parentheses.
pub open spec fn annotation<Raw, Invariant: Test<Raw>>(annotate: bool) -> Seq<char> {
    if annotate {
        "("@ + Invariant::ADJECTIVE@ + ") "@
    } else {
        Seq::empty()
    }
}

impl<Raw: Copy, Invariant: Test<Raw>> Sigma<Raw, Invariant> {
    /// Wrap a copy of a value known to satisfy the invariant.
    pub fn wrap(reference: &Raw) -> (r: Self)
        requires
            Invariant::holds(*reference),
        ensures
            r@ == *reference,
    {
        Sigma { phantom: PhantomData, raw: *reference }
    }

    /// Wrap a copy of each element of a slice whose elements are all known
    /// to satisfy the invariant.
    pub fn all(array: &[Raw]) -> (r: Vec<Self>)
        requires
            forall|i: int| 0 <= i < array@.len() ==> #[trigger] Invariant::holds(array@[i]),
        ensures
            r@.len() == array@.len(),
            forall|i: int| 0 <= i < array@.len() ==> #[trigger] r@[i]@ == array@[i],
    {
        let mut wrapped: Vec<Self> = Vec::new();
        let mut index: usize = 0;
        while index < array.len()
            invariant
                index <= array@.len(),
                wrapped@.len() == index,
                forall|i: int| 0 <= i < array@.len() ==> #[trigger] Invariant::holds(array@[i]),
                forall|i: int| 0 <= i < index ==> #[trigger] wrapped@[i]@ == array@[i],
            decreases array@.len() - index,
        {
            wrapped.push(Sigma { phantom: PhantomData, raw: array[index] });
            index += 1;
        }
        wrapped
    }

    /// Apply a function that mutates this value in place;
    /// every value the function may leave behind must satisfy the invariant.
    pub fn map_mut<Y, F: FnOnce(&mut Raw) -> Y>(&mut self, f: F) -> (y: Y)
        requires
            forall|r: &mut Raw| *r == old(self)@ ==> #[trigger] f.requires((r,)),
            forall|r: &mut Raw, y: Y|
                *r == old(self)@ && #[trigger] f.ensures((r,), y) ==> Invariant::holds(*final(r)),
        ensures
            exists|r: &mut Raw|
                *r == old(self)@ && *final(r) == final(self)@ && #[trigger] f.ensures((r,), y),
    {
        let mut raw = self.raw;
        let y = f(&mut raw);
        self.raw = raw;
        y
    }

    /// Lend the internal value mutably to a function;
    /// every value the function may leave behind must satisfy the invariant.
    pub fn get_by_mut<Y, F: FnOnce(&mut Raw) -> Y>(&mut self, f: F) -> (y: Y)
        requires
            forall|r: &mut Raw| *r == old(self)@ ==> #[trigger] f.requires((r,)),
            forall|r: &mut Raw, y: Y|
                *r == old(self)@ && #[trigger] f.ensures((r,), y) ==> Invariant::holds(*final(r)),
        ensures
            exists|r: &mut Raw|
                *r == old(self)@ && *final(r) == final(self)@ && #[trigger] f.ensures((r,), y),
    {
        self.map_mut(f)
    }

    /// View a copy of this value as satisfying another invariant,
    /// which must be known to hold of the value.
    pub fn also_ref<OtherInvariant: Test<Raw>>(&self) -> (r: Sigma<Raw, OtherInvariant>)
        requires
            OtherInvariant::holds(self@),
        ensures
            r@ == self@,
    {
        Sigma::new(self.raw)
    }

    /// Try to view a copy of this value as satisfying another invariant
    /// by checking the latter invariant at run time.
    /// # Errors
    /// If the latter invariant does not hold; the error says why.
    pub fn try_also_ref<OtherInvariant: Test<Raw>>(&self) -> (r: Result<
        Sigma<Raw, OtherInvariant>,
        OtherInvariant::Error,
    >)
        ensures
            r is Ok <==> OtherInvariant::holds(self@),
            r matches Ok(s) ==> s@ == self@,
            r matches Err(e) ==> call_ensures(OtherInvariant::test, (&self@,), Err(e)),
    {
        match OtherInvariant::test(&self.raw) {
            Ok(()) => Ok(Sigma { phantom: PhantomData, raw: self.raw }),
            Err(error) => Err(error),
        }
    }
}

impl<Raw, Invariant: Test<Raw>> core::ops::Deref for Sigma<Raw, Invariant> {
    type Target = Raw;

    /// Borrow the internal value.
    fn deref(&self) -> (r: &Raw)
        ensures
            *r == self@,
    {
        &self.raw
    }
}

impl<Raw: Copy, Invariant: Test<Raw>> Clone for Sigma<Raw, Invariant> {
    /// A copy of this value, which satisfies the same invariant.
    fn clone(&self) -> (r: Self)
        ensures
            r@ == self@,
    {
        proof {
            use_type_invariant(self);
        }
        Sigma { phantom: PhantomData, raw: self.raw }
    }
}

impl<Raw: Copy, Invariant: Test<Raw>> Copy for Sigma<Raw, Invariant> {

}

impl<Raw: CanBeInfinite, Invariant: Test<Raw>> CanBeInfinite for Sigma<Raw, Invariant> {
    open spec fn is_finite_value(&self) -> bool {
        self@.is_finite_value()
    }

    fn check_finite(&self) -> (r: bool) {
        self.raw.check_finite()
    }
}

/// Wrapping is not lossy: unwrapping a value wrapped by `new` gives back
/// exactly the raw value that was wrapped.
pub proof fn lemma_new_get_round_trip<Raw, Invariant: Test<Raw>>(
    raw: Raw,
    wrapped: Sigma<Raw, Invariant>,
    unwrapped: Raw,
)
    requires
        Invariant::holds(raw),
        call_ensures(Sigma::<Raw, Invariant>::new, (raw,), wrapped),
        call_ensures(Sigma::<Raw, Invariant>::get, (wrapped,), unwrapped),
    ensures
        unwrapped == raw,
{
}

/// `try_new` accepts a raw value exactly when the invariant's own test does:
/// it never accepts an invalid value nor rejects a valid one.
pub proof fn lemma_try_new_agrees_with_test<Raw, Invariant: Test<Raw>>(
    raw: Raw,
    wrapped: Result<Sigma<Raw, Invariant>, Raw>,
    tested: Result<(), Invariant::Error>,
)
    requires
        call_ensures(Sigma::<Raw, Invariant>::try_new, (raw,), wrapped),
        call_ensures(Invariant::test, (&raw,), tested),
    ensures
        wrapped is Ok <==> tested is Ok,
{
}

/// Reinterpreting a value under the invariant it is already wrapped under
/// always succeeds and keeps the value.
pub proof fn lemma_try_also_same_invariant<Raw, Invariant: Test<Raw>>(
    value: Sigma<Raw, Invariant>,
    reinterpreted: Result<Sigma<Raw, Invariant>, Sigma<Raw, Invariant>>,
)
    requires
        value.satisfies_invariant(),
        call_ensures(Sigma::<Raw, Invariant>::try_also::<Invariant>, (value,), reinterpreted),
    ensures
        reinterpreted matches Ok(same) && same@ == value@,
{
}

/// Mutation is re-validated: when every output the function may give violates
/// the invariant, `modify` fails, hands that output back, and leaves the value
/// as it was, so no invalid value becomes observable.
pub proof fn lemma_modify_rejects_invalid_output<Raw, Invariant: Test<Raw>, F: FnOnce(&Raw) -> Raw>(
    value: &mut Sigma<Raw, Invariant>,
    f: F,
    outcome: Result<(), Raw>,
)
    requires
        call_ensures(Sigma::<Raw, Invariant>::modify::<F>, (value, f), outcome),
        forall|out: Raw|
            #[trigger] f.ensures((&mut_ref_current(value)@,), out) ==> !Invariant::holds(out),
    ensures
        outcome matches Err(rejected) && !Invariant::holds(rejected),
        mut_ref_future(value)@ == mut_ref_current(value)@,
{
}

} // verus!
