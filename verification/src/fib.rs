//! The generator itself.

use vstd::prelude::*;

use crate::number::Number;
use crate::sequence::lemma_after_count;
use crate::sequence::lemma_after_monotone;
use crate::sequence::State;

verus! {

/// A lazy, unbounded producer of the terms of an additive recurrence.
///
/// It is made from two seeds, `former` and `current`, in that order. The
/// first two terms it hands out are the seeds; every later term is the sum of
/// the two before it. It keeps the two latest terms and nothing else.
pub struct Fib<T> {
    current: T,
    former: T,
    count: usize,
}

/// Whether a generator over `T` in state `s` can take one more step: its
/// counter has room, and where the step adds, `T` can hold the sum.
pub open spec fn admits<T: Number>(s: State) -> bool {
    &&& s.count < usize::MAX
    &&& s.count >= 2 ==> T::representable(s.former + s.current)
}

/// What suffices for `n` steps in a row: the two terms held are not
/// negative, the counter has room for `n` more, and `T` can hold every
/// number up to the later term that the generator will hold after them.
pub proof fn lemma_steps_admitted<T: Number>(s: State, n: nat)
    requires
        0 <= s.former,
        0 <= s.current,
        s.count + n <= usize::MAX,
        forall|v: int| 0 <= v <= s.after(n).current ==> T::representable(v),
    ensures
        forall|i: nat| i < n ==> admits::<T>(#[trigger] s.after(i)),
{
    assert forall|i: nat| i < n implies admits::<T>(#[trigger] s.after(i)) by {
        lemma_after_count(s, i);
        lemma_after_monotone(s, i, i);
        lemma_after_monotone(s, i + 1, n);
    }
}

impl<T> Fib<T> {
    /// The earlier of the two terms that the generator holds.
    pub closed spec fn spec_former(&self) -> T {
        self.former
    }

    /// The later of the two terms that the generator holds.
    pub closed spec fn spec_current(&self) -> T {
        self.current
    }

    /// The number of terms handed out so far.
    pub closed spec fn spec_count(&self) -> nat {
        self.count as nat
    }
}

impl<T: Number> View for Fib<T> {
    type V = State;

    /// The generator as plain numbers: each term by the integer it stands
    /// for.
    open spec fn view(&self) -> State {
        State {
            former: self.spec_former().value(),
            current: self.spec_current().value(),
            count: self.spec_count(),
        }
    }
}

impl<T: Number> Fib<T> {
    /// A generator with the seeds `former` and `current`, which has emitted
    /// nothing yet. Any two values will do.
    pub fn new(former: T, current: T) -> (r: Self)
        ensures
            r.spec_former() == former,
            r.spec_current() == current,
            r.spec_count() == 0,
            r@ == State::seeded(former.value(), current.value()),
    {
        Self { current, former, count: 0 }
    }

    /// The earlier of the two terms that the generator holds.
    pub fn former(&self) -> (r: &T)
        ensures
            *r == self.spec_former(),
    {
        &self.former
    }

    /// The later of the two terms that the generator holds.
    pub fn current(&self) -> (r: &T)
        ensures
            *r == self.spec_current(),
    {
        &self.current
    }

    /// The number of terms handed out so far.
    pub fn count(&self) -> (r: usize)
        ensures
            r == self.spec_count(),
    {
        self.count
    }

    /// Hands out the next term. There always is one: the result is never
    /// `None`. The first two calls hand out the seeds and leave both of them
    /// untouched; each later call moves the later term into the place of the
    /// earlier one and puts their sum in its own place.
    pub fn next(&mut self) -> (r: Option<T>)
        requires
            admits::<T>(old(self)@),
        ensures
            final(self)@ == old(self)@.step(),
            r matches Some(t) && t.value() == old(self)@.emits(),
            old(self)@.count < 2 ==> final(self).spec_former() == old(self).spec_former(),
            old(self)@.count < 2 ==> final(self).spec_current() == old(self).spec_current(),
            old(self)@.count >= 2 ==> final(self).spec_former() == old(self).spec_current(),
    {
        self.count += 1;
        Some(
            if self.count == 1 {
                self.former.duplicate()
            } else if self.count == 2 {
                self.current.duplicate()
            } else {
                std::mem::swap(&mut self.current, &mut self.former);
                self.current.add_assign(&self.former);
                self.current.duplicate()
            },
        )
    }

    /// Hands out the next term where `T` can hold it, and otherwise leaves
    /// the generator as it is. `None` says that the term does not fit `T`,
    /// or that the counter is full: the sequence itself has no end.
    pub fn checked_next(&mut self) -> (r: Option<T>)
        ensures
            admits::<T>(old(self)@) ==> final(self)@ == old(self)@.step(),
            admits::<T>(old(self)@) ==> (r matches Some(t) && t.value() == old(self)@.emits()),
            !admits::<T>(old(self)@) ==> r is None && *final(self) == *old(self),
    {
        if self.count == usize::MAX {
            return None;
        }
        if self.count >= 2 && !self.former.can_add(&self.current) {
            return None;
        }
        self.next()
    }

    /// Hands out the next `n` terms, in order. `lemma_steps_admitted` gives
    /// a condition under which all `n` steps can be taken.
    pub fn take(&mut self, n: usize) -> (r: Vec<T>)
        requires
            forall|i: nat| i < n ==> admits::<T>(#[trigger] old(self)@.after(i)),
        ensures
            final(self)@ == old(self)@.after(n as nat),
            r@.len() == n,
            forall|i: int|
                0 <= i < n ==> (#[trigger] r@[i]).value() == old(self)@.after(i as nat).emits(),
    {
        let mut terms: Vec<T> = Vec::new();
        let mut i: usize = 0;
        while i < n
            invariant
                i <= n,
                self@ == old(self)@.after(i as nat),
                terms@.len() == i,
                forall|j: nat| j < n ==> admits::<T>(#[trigger] old(self)@.after(j)),
                forall|j: int|
                    0 <= j < i ==> (#[trigger] terms@[j]).value() == old(self)@.after(
                        j as nat,
                    ).emits(),
            decreases n - i,
        {
            if let Some(t) = self.next() {
                terms.push(t);
            }
            i += 1;
        }
        terms
    }
}

impl<T: Number> Default for Fib<T> {
    /// The generator of the Fibonacci numbers: the seeds are `T`'s zero and
    /// one.
    fn default() -> (r: Self)
        ensures
            r@ == State::seeded(0, 1),
    {
        Self::new(T::zero(), T::one())
    }
}

} // verus!
