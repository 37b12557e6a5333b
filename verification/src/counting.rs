//! The mathematical model of the ritual counter: how it moves on each call,
//! when a milestone is reached, and what holds of a whole sequence of calls.

use vstd::prelude::*;

verus! {

/// A ritual count is a milestone when it is an exact multiple of five.
pub open spec fn is_milestone(count: nat) -> bool {
    count % 5 == 0
}

/// The counter transition: each successful ritual adds one.
pub open spec fn next_count(count: nat) -> nat {
    count + 1
}

/// The counter after `n` rituals performed on a fresh service.
pub open spec fn count_after(n: nat) -> nat
    decreases n,
{
    if n == 0 {
        0
    } else {
        next_count(count_after((n - 1) as nat))
    }
}

/// How many of the first `n` rituals reach a milestone: those whose
/// post-increment count is a multiple of five.
pub open spec fn milestones_after(n: nat) -> nat
    decreases n,
{
    if n == 0 {
        0
    } else {
        milestones_after((n - 1) as nat) + (if is_milestone(count_after(n)) {
            1nat
        } else {
            0nat
        })
    }
}

/// After `n` rituals on a fresh service the counter reads exactly `n`.
pub proof fn lemma_count_after(n: nat)
    ensures
        count_after(n) == n,
    decreases n,
{
    if n > 0 {
        lemma_count_after((n - 1) as nat);
    }
}

/// No two calls in one sequence of rituals observe the same post-increment
/// count: the value handed to the `i`-th call differs from the value handed
/// to any other call.
pub proof fn lemma_counts_unique(i: nat, j: nat)
    requires
        i != j,
    ensures
        count_after(i) != count_after(j),
{
    lemma_count_after(i);
    lemma_count_after(j);
}

/// The counter never decreases over a run of rituals.
pub proof fn lemma_count_monotone(m: nat, n: nat)
    requires
        m <= n,
    ensures
        count_after(m) <= count_after(n),
{
    lemma_count_after(m);
    lemma_count_after(n);
}

/// The `n`-th call reaches a milestone exactly when `n` is a multiple of
/// five.
pub proof fn lemma_milestone_at(n: nat)
    ensures
        is_milestone(count_after(n)) <==> n % 5 == 0,
{
    lemma_count_after(n);
}

/// Across `n` rituals on a fresh service, a milestone is reached exactly
/// `n / 5` times, at the calls whose post-increment count is a multiple of
/// five.
pub proof fn lemma_milestone_frequency(n: nat)
    ensures
        milestones_after(n) == n / 5,
    decreases n,
{
    if n > 0 {
        lemma_milestone_frequency((n - 1) as nat);
        lemma_count_after(n);
        if n % 5 == 0 {
            assert(n / 5 == (n - 1) as nat / 5 + 1) by (nonlinear_arith)
                requires
                    n > 0 && n % 5 == 0,
            ;
        } else {
            assert(n / 5 == (n - 1) as nat / 5) by (nonlinear_arith)
                requires
                    n > 0 && n % 5 != 0,
            ;
        }
    }
}

} // verus!
