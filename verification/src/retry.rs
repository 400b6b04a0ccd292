//! The retry budget of one step.
//!
//! Every open and stage invocation gets a fresh counter, copied from the
//! watch set's `max_retries`.  A `Retry` outcome spends one unit of the
//! budget and is followed by a sleep and a new attempt; once a bounded
//! budget reaches zero the next `Retry` outcome is fatal.  An absent budget
//! never runs out.

use vstd::prelude::*;

verus! {

/// How many further `Retry` outcomes one step may still absorb.
/// `None` means unbounded.
#[derive(Clone, Copy, Debug, PartialEq, Eq, Structural)]
pub struct RetryState {
    pub remaining: Option<u32>,
}

impl RetryState {
    /// Whether one more `Retry` outcome is absorbed (sleep, then try again)
    /// rather than being fatal.
    pub open spec fn allowed(self) -> bool {
        match self.remaining {
            Option::None => true,
            Option::Some(n) => n > 0,
        }
    }

    /// The budget left after absorbing one `Retry` outcome.
    pub open spec fn spent(self) -> RetryState {
        match self.remaining {
            Option::None => self,
            Option::Some(n) => if n > 0 {
                RetryState { remaining: Option::Some((n - 1) as u32) }
            } else {
                self
            },
        }
    }

    /// A fresh counter for one step, copied from the watch set's budget.
    pub fn new(budget: Option<u32>) -> (r: Self)
        ensures
            r.remaining == budget,
    {
        RetryState { remaining: budget }
    }

    /// Absorb one `Retry` outcome: reports whether another attempt may be
    /// made, and counts the budget down when it is bounded.
    pub fn note_retry(&mut self) -> (allowed: bool)
        ensures
            allowed == old(self).allowed(),
            *final(self) == old(self).spent(),
    {
        match self.remaining {
            Option::None => true,
            Option::Some(n) => {
                if n > 0 {
                    self.remaining = Option::Some(n - 1);
                    true
                } else {
                    false
                }
            },
        }
    }
}

/// The budget left after `m` consecutive `Retry` outcomes were absorbed.
pub open spec fn retry_iter(s: RetryState, m: nat) -> RetryState
    decreases m,
{
    if m == 0 {
        s
    } else {
        retry_iter(s, (m - 1) as nat).spent()
    }
}

/// Law: a bounded budget of `n` absorbs exactly `n` `Retry` outcomes.  After
/// `m <= n` of them the counter stands at `n - m`, a further attempt is still
/// allowed exactly while `m < n`, so the operation is invoked at most `n + 1`
/// times and the `n + 1`-th `Retry` outcome is the one that exhausts it.
pub proof fn lemma_bounded_budget(n: u32, m: nat)
    requires
        m <= n,
    ensures
        retry_iter(RetryState { remaining: Option::Some(n) }, m).remaining
            == Option::Some((n - m) as u32),
        retry_iter(RetryState { remaining: Option::Some(n) }, m).allowed() <==> m < n,
    decreases m,
{
    if m > 0 {
        lemma_bounded_budget(n, (m - 1) as nat);
    }
}

/// Law: an unbounded budget is never spent: any finite run of `Retry`
/// outcomes leaves it unchanged and still willing, so a step can only end in
/// `Success` or `Fail`, never for want of retries.
pub proof fn lemma_unbounded_budget(m: nat)
    ensures
        retry_iter(RetryState { remaining: Option::None }, m)
            == (RetryState { remaining: Option::<u32>::None }),
        retry_iter(RetryState { remaining: Option::None }, m).allowed(),
    decreases m,
{
    if m > 0 {
        lemma_unbounded_budget((m - 1) as nat);
    }
}

} // verus!
