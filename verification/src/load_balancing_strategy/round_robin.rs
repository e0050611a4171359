//! Round robin: requests go to the workers in turn.

use vstd::prelude::*;
use crate::domain::LoadBalancerError;
use super::traits::Strategy;
use vstd::arithmetic::div_mod::{
    lemma_add_mod_noop_right, lemma_fundamental_div_mod, lemma_fundamental_div_mod_converse,
    lemma_mod_bound, lemma_mod_equivalence, lemma_small_mod,
};

verus! {

/// The counter after one more selection: it wraps around at `usize::MAX`.
pub open spec fn next_counter(c: usize) -> usize {
    if c == usize::MAX {
        0
    } else {
        (c + 1) as usize
    }
}

/// Worker `w` is picked by one of the `worker_count` selections that
/// follow the counter `c`.
pub open spec fn is_picked(c: int, worker_count: int, w: int) -> bool {
    exists|k: int| 0 <= k < worker_count && #[trigger] ((c + k) % worker_count) == w
}

/// Round robin is fair: the `worker_count` selections that follow the
/// counter `c` (without it wrapping around) pick every worker exactly once.
pub proof fn lemma_round_robin_is_fair(c: int, worker_count: int)
    requires
        0 <= c,
        worker_count > 0,
    ensures
        forall|k1: int, k2: int|
            0 <= k1 < worker_count && 0 <= k2 < worker_count && k1 != k2 ==> #[trigger] ((c + k1)
                % worker_count) != #[trigger] ((c + k2) % worker_count),
        forall|w: int| 0 <= w < worker_count ==> #[trigger] is_picked(c, worker_count, w),
{
    let n = worker_count;
    assert forall|k1: int, k2: int|
        0 <= k1 < n && 0 <= k2 < n && k1 != k2 implies #[trigger] ((c + k1) % n) != #[trigger] ((c
            + k2) % n) by {
        lemma_mod_equivalence(c + k1, c + k2, n);
        let d = k1 - k2;
        assert((c + k1) - (c + k2) == d);
        if d > 0 {
            lemma_small_mod(d as nat, n as nat);
        } else {
            lemma_fundamental_div_mod_converse(d, n, -1, d + n);
        }
    }
    assert forall|w: int| 0 <= w < n implies #[trigger] is_picked(c, n, w) by {
        let k = (w - c % n) % n;
        lemma_mod_bound(w - c % n, n);
        lemma_add_mod_noop_right(c, w - c % n, n);
        lemma_fundamental_div_mod(c, n);
        assert(c + (w - c % n) == n * (c / n) + w);
        assert(n * (c / n) == (c / n) * n) by (nonlinear_arith);
        lemma_fundamental_div_mod_converse(c + (w - c % n), n, c / n, w);
        assert((c + k) % n == w);
    }
}

/// The counter after `j` selections from the counter `c`.
pub open spec fn counter_after(c: usize, j: nat) -> usize
    decreases j,
{
    if j == 0 {
        c
    } else {
        next_counter(counter_after(c, (j - 1) as nat))
    }
}

/// Without wrapping around, `j` selections move the counter on by `j`: the
/// selection after them picks worker `(c + j) % worker_count`.
pub proof fn lemma_counter_after(c: usize, j: nat)
    requires
        c + j <= usize::MAX,
    ensures
        counter_after(c, j) == c + j,
    decreases j,
{
    if j > 0 {
        lemma_counter_after(c, (j - 1) as nat);
    }
}

/// How many of the first `t` selections from a counter of zero pick worker
/// `w` among `n` workers: the selections `j < t` with `j % n == w`.
pub open spec fn times_picked(w: int, n: int, t: nat) -> nat
    decreases t,
{
    if t == 0 {
        0
    } else {
        times_picked(w, n, (t - 1) as nat) + if ((t - 1) as int) % n == w {
            1nat
        } else {
            0nat
        }
    }
}

/// Round robin spreads requests evenly: of `t` selections from a fresh
/// round robin, worker `w` gets `t / n` of them, one more when it is among
/// the first `t % n` workers, so every worker gets `t / n` or `t / n + 1`.
pub proof fn lemma_round_robin_spreads_evenly(w: int, n: int, t: nat)
    requires
        n > 0,
        0 <= w < n,
    ensures
        times_picked(w, n, t) == (t as int) / n + if w < (t as int) % n {
            1int
        } else {
            0int
        },
        (t as int) / n <= times_picked(w, n, t) <= (t as int) / n + 1,
    decreases t,
{
    if t > 0 {
        let p = (t - 1) as int;
        lemma_round_robin_spreads_evenly(w, n, p as nat);
        lemma_fundamental_div_mod(p, n);
        lemma_mod_bound(p, n);
        let q = p / n;
        let r = p % n;
        if r == n - 1 {
            assert(p + 1 == (q + 1) * n + 0) by (nonlinear_arith)
                requires
                    p == n * q + r,
                    r == n - 1,
            ;
            lemma_fundamental_div_mod_converse(p + 1, n, q + 1, 0);
        } else {
            assert(p + 1 == q * n + (r + 1)) by (nonlinear_arith)
                requires
                    p == n * q + r,
            ;
            lemma_fundamental_div_mod_converse(p + 1, n, q, r + 1);
        }
    } else {
        assert(0int / n == 0 && 0int % n == 0) by (nonlinear_arith)
            requires
                n > 0,
        ;
    }
}

/// Round robin distributes requests sequentially across workers.
#[derive(Debug)]
pub struct RoundRobin {
    current: usize,
}

impl RoundRobin {
    /// The number of selections made so far (modulo the word size).
    pub closed spec fn counter(&self) -> usize {
        self.current
    }

    /// Create a new round robin instance.
    pub fn new() -> (r: Self)
        ensures
            r.counter() == 0,
    {
        RoundRobin { current: 0 }
    }
}

impl Default for RoundRobin {
    fn default() -> (r: Self)
        ensures
            r.counter() == 0,
    {
        Self::new()
    }
}

impl Strategy for RoundRobin {
    /// The worker at the counter modulo the worker count; the counter moves on.
    fn select_worker(&mut self, worker_count: usize) -> (r: Result<usize, LoadBalancerError>)
        ensures
            worker_count > 0 ==> r == Ok::<usize, LoadBalancerError>(
                (old(self).counter() % worker_count) as usize,
            ) && final(self).counter() == next_counter(old(self).counter()),
            worker_count == 0 ==> *final(self) == *old(self),
    {
        self.validate_worker_count(worker_count)?;
        let current_worker = self.current;
        self.current = self.current.wrapping_add(1);
        Ok(current_worker % worker_count)
    }

    fn strategy_name(&self) -> (r: &'static str)
        ensures
            r@ == "round_robin"@,
    {
        "round_robin"
    }
}

} // verus!
