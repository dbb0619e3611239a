//! The mathematical model: the sequence of terms, and the generator as a
//! state machine over plain integers.

use vstd::prelude::*;

verus! {

/// The `n`-th term, counted from 1, of the additive recurrence with seeds
/// `a` and `b`: the seeds themselves, then each term the sum of the two
/// before it.
pub open spec fn term(a: int, b: int, n: nat) -> int
    recommends
        n >= 1,
    decreases n,
{
    if n <= 1 {
        a
    } else if n == 2 {
        b
    } else {
        term(a, b, (n - 1) as nat) + term(a, b, (n - 2) as nat)
    }
}

/// The Fibonacci numbers 0, 1, 1, 2, 3, 5, ..., counted from 0.
pub open spec fn fibonacci(n: nat) -> nat
    decreases n,
{
    if n == 0 {
        0
    } else if n == 1 {
        1
    } else {
        fibonacci((n - 1) as nat) + fibonacci((n - 2) as nat)
    }
}

/// What a generator holds, as plain numbers: the two terms it keeps and the
/// number of terms it has emitted.
pub struct State {
    pub former: int,
    pub current: int,
    pub count: nat,
}

impl State {
    /// A generator that has emitted nothing yet, with seeds `a` and `b`.
    pub open spec fn seeded(a: int, b: int) -> State {
        State { former: a, current: b, count: 0 }
    }

    /// The term that the next step emits.
    pub open spec fn emits(self) -> int {
        if self.count == 0 {
            self.former
        } else if self.count == 1 {
            self.current
        } else {
            self.former + self.current
        }
    }

    /// The state after one step. The first two steps hand out the seeds and
    /// leave both terms alone; every later step moves the pair one term on.
    pub open spec fn step(self) -> State {
        if self.count < 2 {
            State { former: self.former, current: self.current, count: self.count + 1 }
        } else {
            State {
                former: self.current,
                current: self.former + self.current,
                count: self.count + 1,
            }
        }
    }

    /// The state after `k` steps.
    pub open spec fn after(self, k: nat) -> State
        decreases k,
    {
        if k == 0 {
            self
        } else {
            self.after((k - 1) as nat).step()
        }
    }
}

/// The `n`-th term, counted from 1, that a generator with seeds `a` and `b`
/// emits: what its `n`-th step hands out.
pub open spec fn produced(a: int, b: int, n: nat) -> int
    recommends
        n >= 1,
{
    State::seeded(a, b).after((n - 1) as nat).emits()
}

/// Every step counts: after `k` steps a generator has emitted exactly `k`
/// terms more, and nothing ever sets its counter back.
pub proof fn lemma_after_count(s: State, k: nat)
    ensures
        s.after(k).count == s.count + k,
    decreases k,
{
    if k > 0 {
        lemma_after_count(s, (k - 1) as nat);
    }
}

/// A generator whose two terms are not negative never holds a negative
/// term, and from one step to the next the later of its two terms does not
/// decrease. So where the later term after `n` steps fits a bounded type,
/// every sum on the way there fits it too.
pub proof fn lemma_after_monotone(s: State, i: nat, n: nat)
    requires
        0 <= s.former,
        0 <= s.current,
        i <= n,
    ensures
        0 <= s.after(i).former,
        0 <= s.after(i).current <= s.after(n).current,
    decreases n,
{
    if n > 0 {
        lemma_after_monotone(s, (n - 1) as nat, (n - 1) as nat);
        if i < n {
            lemma_after_monotone(s, i, (n - 1) as nat);
        }
    }
}

/// What a freshly seeded generator holds after `n` steps: the seeds until
/// both are handed out, then the two latest terms of the sequence.
pub proof fn lemma_after_seeded(a: int, b: int, n: nat)
    ensures
        State::seeded(a, b).after(n).count == n,
        n <= 2 ==> State::seeded(a, b).after(n).former == a,
        n <= 2 ==> State::seeded(a, b).after(n).current == b,
        n > 2 ==> State::seeded(a, b).after(n).former == term(a, b, (n - 1) as nat),
        n > 2 ==> State::seeded(a, b).after(n).current == term(a, b, n),
    decreases n,
{
    if n > 0 {
        lemma_after_seeded(a, b, (n - 1) as nat);
        assert(term(a, b, 1) == a);
        assert(term(a, b, 2) == b);
    }
}

/// The `n`-th term that a generator emits is the `n`-th term of the
/// sequence that its seeds define.
pub proof fn law_produced_is_term(a: int, b: int, n: nat)
    requires
        n >= 1,
    ensures
        produced(a, b, n) == term(a, b, n),
{
    lemma_after_seeded(a, b, (n - 1) as nat);
    assert(term(a, b, 1) == a);
    assert(term(a, b, 2) == b);
}

/// The first term emitted is the first seed and the second is the second
/// seed, whatever the seeds are.
pub proof fn law_seeds_come_first(a: int, b: int)
    ensures
        produced(a, b, 1) == a,
        produced(a, b, 2) == b,
{
    law_produced_is_term(a, b, 1);
    law_produced_is_term(a, b, 2);
}

/// From the third on, every term emitted is the sum of the two emitted just
/// before it.
pub proof fn law_recurrence(a: int, b: int, n: nat)
    requires
        n >= 3,
    ensures
        produced(a, b, n) == produced(a, b, (n - 1) as nat) + produced(a, b, (n - 2) as nat),
{
    law_produced_is_term(a, b, n);
    law_produced_is_term(a, b, (n - 1) as nat);
    law_produced_is_term(a, b, (n - 2) as nat);
}

/// The first step hands out the first seed and changes neither term, so
/// that the second step hands out the second seed.
pub proof fn law_first_step_keeps_seeds(a: int, b: int)
    ensures
        State::seeded(a, b).emits() == a,
        State::seeded(a, b).step().former == a,
        State::seeded(a, b).step().current == b,
        State::seeded(a, b).step().emits() == b,
{
}

/// With seeds 0 and 1 the generator emits the Fibonacci numbers.
pub proof fn law_canonical_is_fibonacci(n: nat)
    requires
        n >= 1,
    ensures
        produced(0, 1, n) == fibonacci((n - 1) as nat),
{
    law_produced_is_term(0, 1, n);
    lemma_term_canonical(n);
}

/// The sequence with seeds 0 and 1 is the Fibonacci numbers, one place on.
pub proof fn lemma_term_canonical(n: nat)
    requires
        n >= 1,
    ensures
        term(0, 1, n) == fibonacci((n - 1) as nat),
    decreases n,
{
    if n > 2 {
        lemma_term_canonical((n - 1) as nat);
        lemma_term_canonical((n - 2) as nat);
    }
}

} // verus!
