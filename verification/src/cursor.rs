//! A verified model of the generated construct's control state.
//!
//! The emitted iterator holds a borrowed tuple and a cursor. Its step
//! dispatches on the cursor: each position `0` to `count - 1` has an arm
//! that yields that position's element and advances the cursor, and every
//! other cursor value falls through to the arm that yields nothing (see
//! [`crate::synth::arm`] and [`crate::synth::next_fn`]). [`TupleCursor`]
//! is that control state with the per-position payload abstracted away to
//! the position itself, and the laws below are proved of it: a full pass
//! yields every position in ascending order, and an exhausted iterator
//! stays exhausted and unchanged however often it is stepped.

use vstd::prelude::*;

verus! {

/// The cursor state of a generated iterator over a tuple of `count`
/// positions.
pub struct TupleCursor {
    pub cursor: usize,
    pub count: usize,
}

/// One step of the generated dispatch: below `count` the cursor's own
/// value is yielded and the cursor advances; at or above `count` nothing
/// is yielded and nothing changes.
pub open spec fn spec_step(c: nat, n: nat) -> (nat, Option<nat>) {
    if c < n {
        ((c + 1) as nat, Some(c))
    } else {
        (c, None)
    }
}

/// The positions yielded by running from cursor `c` until exhaustion.
pub open spec fn run(c: nat, n: nat) -> Seq<nat>
    decreases n - c,
{
    if c < n {
        seq![c] + run((c + 1) as nat, n)
    } else {
        Seq::empty()
    }
}

/// The cursor after `k` steps from cursor `c`.
pub open spec fn state_after(c: nat, n: nat, k: nat) -> nat
    decreases k,
{
    if k == 0 {
        c
    } else {
        spec_step(state_after(c, n, (k - 1) as nat), n).0
    }
}

/// What the step after `k` earlier steps yields.
pub open spec fn output_after(c: nat, n: nat, k: nat) -> Option<nat> {
    spec_step(state_after(c, n, k), n).1
}

impl TupleCursor {
    /// A fresh iterator state: the cursor at zero.
    pub fn new(count: usize) -> (r: Self)
        ensures
            r.cursor == 0,
            r.count == count,
    {
        TupleCursor { cursor: 0, count }
    }

    /// One step of the dispatch, exactly as [`spec_step`] gives it.
    pub fn next_pos(&mut self) -> (r: Option<usize>)
        ensures
            final(self).count == old(self).count,
            final(self).cursor as nat == spec_step(
                old(self).cursor as nat,
                old(self).count as nat,
            ).0,
            (match (r, spec_step(old(self).cursor as nat, old(self).count as nat).1) {
                (Some(a), Some(b)) => a as nat == b,
                (None, None) => true,
                _ => false,
            }),
    {
        if self.cursor < self.count {
            let c = self.cursor;
            self.cursor = self.cursor + 1;
            Some(c)
        } else {
            None
        }
    }
}

proof fn lemma_run_positions(c: nat, n: nat)
    requires
        c <= n,
    ensures
        run(c, n).len() == n - c,
        forall|i: int| 0 <= i < n - c ==> run(c, n)[i] == c + i,
    decreases n - c,
{
    if c < n {
        lemma_run_positions((c + 1) as nat, n);
    }
}

/// A full pass from a fresh cursor yields exactly `count` positions, in
/// strictly ascending order: the step taken at position `i` yields `i`.
/// With `count` zero the pass yields nothing at all.
pub proof fn lemma_full_pass(count: nat)
    ensures
        run(0, count).len() == count,
        forall|i: int| 0 <= i < count ==> run(0, count)[i] == i,
{
    lemma_run_positions(0, count);
}

/// Exhaustion is idempotent: from any cursor at or past `count`, any
/// number of further steps leaves the cursor unchanged and yields nothing,
/// however often the step is repeated.
pub proof fn lemma_exhaustion_idempotent(c: nat, n: nat, k: nat)
    requires
        c >= n,
    ensures
        state_after(c, n, k) == c,
        output_after(c, n, k) is None,
    decreases k,
{
    if k > 0 {
        lemma_exhaustion_idempotent(c, n, (k - 1) as nat);
    }
}

/// After a full pass the iterator is exhausted: running from zero takes
/// the cursor to `count`, and every later step yields nothing.
pub proof fn lemma_pass_then_exhausted(count: nat, k: nat)
    ensures
        state_after(count, count, k) == count,
        output_after(count, count, k) is None,
{
    lemma_exhaustion_idempotent(count, count, k);
}

} // verus!
