//! Round-robin selection over a fixed, non-empty list of backend addresses.

use vstd::prelude::*;
use vstd::arithmetic::div_mod::{
    lemma_add_mod_noop, lemma_mod_equivalence, lemma_mod_multiples_vanish, lemma_small_mod,
};

verus! {

/// The index served by a selection made when the shared counter holds
/// `counter` and the backend list has `n` entries.
pub open spec fn rr_index(counter: nat, n: nat) -> nat
    recommends
        n >= 1,
{
    counter % n
}

/// A selection counter advances by one per call and wraps at the machine
/// limit.
pub open spec fn wrap_inc(counter: nat) -> nat {
    if counter == usize::MAX {
        0
    } else {
        counter + 1
    }
}

/// The indices served by a run of `m` consecutive selections that starts
/// with the counter at `start`, for a list of `n` backends.
pub open spec fn run_indices(start: nat, m: nat, n: nat) -> Seq<nat> {
    Seq::new(m, |k: int| rr_index((start + k) as nat, n))
}

/// Cycles through an ordered backend list, advancing a counter by one
/// position per selection.
pub struct Balancer {
    backends: Vec<String>,
    counter: usize,
}

impl Balancer {
    /// The ordered backend list, as character sequences.
    pub closed spec fn backend_list(&self) -> Seq<Seq<char>> {
        self.backends.deep_view()
    }

    /// The number of selections made so far, wrapping at the machine limit.
    pub closed spec fn count(&self) -> nat {
        self.counter as nat
    }

    /// A balancer is well formed when its list is non-empty; an empty list
    /// is a configuration error rejected before construction.
    pub open spec fn wf(&self) -> bool {
        self.backend_list().len() >= 1
    }

    pub fn new(backends: Vec<String>) -> (r: Balancer)
        requires
            backends.deep_view().len() >= 1,
        ensures
            r.wf(),
            r.backend_list() == backends.deep_view(),
            r.count() == 0,
    {
        Balancer { backends, counter: 0 }
    }

    /// Advances the shared counter by one and returns the backend at the
    /// old counter value modulo the list length.
    pub fn next_backend(&mut self) -> (r: String)
        requires
            old(self).wf(),
        ensures
            final(self).wf(),
            final(self).backend_list() == old(self).backend_list(),
            final(self).count() == wrap_inc(old(self).count()),
            rr_index(old(self).count(), old(self).backend_list().len()) < old(
                self,
            ).backend_list().len(),
            r@ == old(self).backend_list()[rr_index(
                old(self).count(),
                old(self).backend_list().len(),
            ) as int],
    {
        let n = self.backends.len();
        let index = self.counter % n;
        self.counter = self.counter.wrapping_add(1);
        let chosen = self.backends[index].clone();
        proof {
            assert(self.backends.deep_view()[index as int] == self.backends@[index as int]@);
        }
        chosen
    }
}

/// Every selection of a run lands inside the backend list.
pub proof fn lemma_run_indices_valid(start: nat, m: nat, n: nat)
    requires
        n >= 1,
    ensures
        forall|k: int| 0 <= k < m ==> run_indices(start, m, n)[k] < n,
{
}

/// A run of `m + 1` selections is the run of `m` selections followed by the
/// selection made at counter value `start + m`: chaining calls of
/// `next_backend` walks `run_indices` one step at a time.
pub proof fn lemma_run_indices_step(start: nat, m: nat, n: nat)
    ensures
        run_indices(start, m + 1, n) == run_indices(start, m, n).push(
            rr_index((start + m) as nat, n),
        ),
{
    assert(run_indices(start, m + 1, n) =~= run_indices(start, m, n).push(
        rr_index((start + m) as nat, n),
    ));
}

/// Consecutive runs compose: the selections of a run of `m1 + m2` calls are
/// those of the first `m1` calls followed by those of the next `m2`. With
/// the full-cycle law below, every window of `n` consecutive selections in
/// any run serves every backend exactly once.
pub proof fn lemma_run_indices_compose(start: nat, m1: nat, m2: nat, n: nat)
    ensures
        run_indices(start, m1 + m2, n) == run_indices(start, m1, n) + run_indices(
            start + m1,
            m2,
            n,
        ),
{
    assert(run_indices(start, m1 + m2, n) =~= run_indices(start, m1, n) + run_indices(
        start + m1,
        m2,
        n,
    ));
}

/// Perfect round-robin: a run of exactly `n` selections over `n` backends
/// serves every index once, with no skips and no repeats, whatever counter
/// value the run starts from.
pub proof fn lemma_round_robin_cycle(start: nat, n: nat)
    requires
        n >= 1,
    ensures
        run_indices(start, n, n).len() == n,
        run_indices(start, n, n).no_duplicates(),
        forall|j: nat| j < n ==> #[trigger] run_indices(start, n, n).contains(j),
{
    let run = run_indices(start, n, n);
    assert forall|k1: int, k2: int| 0 <= k1 < run.len() && 0 <= k2 < run.len() && k1 != k2
        implies run[k1] != run[k2] by {
        if run[k1] == run[k2] {
            let a = start + k1;
            let b = start + k2;
            assert(run[k1] == (a as nat) % n);
            assert(run[k2] == (b as nat) % n);
            if k1 < k2 {
                lemma_mod_equivalence(b as int, a as int, n as int);
                assert((b - a) % (n as int) == 0);
                lemma_small_mod((k2 - k1) as nat, n);
                assert((b - a) % (n as int) == k2 - k1);
            } else {
                lemma_mod_equivalence(a as int, b as int, n as int);
                assert((a - b) % (n as int) == 0);
                lemma_small_mod((k1 - k2) as nat, n);
                assert((a - b) % (n as int) == k1 - k2);
            }
        }
    }
    assert forall|j: nat| j < n implies #[trigger] run.contains(j) by {
        lemma_small_mod(j, n);
        let s = start % n;
        let k: int = if j >= s {
            j - s
        } else {
            j + n - s
        };
        lemma_add_mod_noop(start as int, k, n as int);
        lemma_small_mod(k as nat, n);
        if j >= s {
            lemma_small_mod(j, n);
            assert((start + k) % (n as int) == j);
        } else {
            lemma_mod_multiples_vanish(1, j as int, n as int);
            assert((start + k) % (n as int) == j);
        }
        assert(run[k] == j);
    }
}

} // verus!
