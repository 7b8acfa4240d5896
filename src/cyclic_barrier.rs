use std::sync::{Condvar, Mutex, MutexGuard};
use vstd::prelude::*;

use crate::sync::{load, lock, store};

verus! {

/// The abstract state of a barrier: how many parties a round needs, how many
/// have arrived in the current round, and which round it is.
pub struct BarrierView {
    pub parties: nat,
    pub waiting: nat,
    pub generation: nat,
}

/// The states a barrier can be in: at least one party, fewer arrivals than
/// parties, and counters that fit their machine types.
pub open spec fn in_bounds(v: BarrierView) -> bool {
    &&& 0 < v.parties <= u32::MAX
    &&& v.waiting < v.parties
    &&& v.generation <= u64::MAX
}

/// The round after round `g`. The counter wraps after its largest value, so
/// that it always differs from `g`.
pub open spec fn next_generation(g: nat) -> nat {
    if g >= u64::MAX {
        0
    } else {
        g + 1
    }
}

/// The state after one arrival, and whether that arrival completed the round.
pub open spec fn arrive_spec(v: BarrierView) -> (BarrierView, bool) {
    if v.waiting + 1 == v.parties {
        (BarrierView { waiting: 0, generation: next_generation(v.generation), ..v }, true)
    } else {
        (BarrierView { waiting: v.waiting + 1, ..v }, false)
    }
}

/// A party that arrived in round `recorded` may leave once the barrier has
/// moved on to another round.
pub open spec fn released(v: BarrierView, recorded: nat) -> bool {
    v.generation != recorded
}

/// The state after `k` arrivals.
pub open spec fn after_arrivals(v: BarrierView, k: nat) -> BarrierView
    decreases k,
{
    if k == 0 {
        v
    } else {
        arrive_spec(after_arrivals(v, (k - 1) as nat)).0
    }
}

/// How many of the first `k` arrivals completed a round.
pub open spec fn triggers(v: BarrierView, k: nat) -> nat
    decreases k,
{
    if k == 0 {
        0
    } else {
        triggers(v, (k - 1) as nat) + if arrive_spec(after_arrivals(v, (k - 1) as nat)).1 {
            1nat
        } else {
            0nat
        }
    }
}

/// The round counter after `r` completed rounds.
pub open spec fn generation_after(g: nat, r: nat) -> nat
    decreases r,
{
    if r == 0 {
        g
    } else {
        next_generation(generation_after(g, (r - 1) as nat))
    }
}

/// The result of a wait at a barrier.
#[derive(Clone, Copy, Debug, PartialEq, Eq, Structural)]
pub enum BarrierWaitResult {
    /// The caller was the last of its round to arrive and released the others.
    Triggered,
    /// The caller was released by the last arrival of its round.
    Released,
}

/// The state of a barrier, as kept under its mutex.
#[derive(Clone, Copy, Debug)]
pub struct BarrierState {
    parties: u32,
    waiting: u32,
    generation: u64,
}

impl View for BarrierState {
    type V = BarrierView;

    closed spec fn view(&self) -> BarrierView {
        BarrierView {
            parties: self.parties as nat,
            waiting: self.waiting as nat,
            generation: self.generation as nat,
        }
    }
}

impl BarrierState {
    #[verifier::type_invariant]
    spec fn inv(&self) -> bool {
        0 < self.parties && self.waiting < self.parties
    }

    /// The state of a fresh barrier for `parties` parties.
    pub fn new(parties: u32) -> (r: BarrierState)
        requires
            parties > 0,
        ensures
            r@ == (BarrierView { parties: parties as nat, waiting: 0, generation: 0 }),
            in_bounds(r@),
    {
        BarrierState { parties, waiting: 0, generation: 0 }
    }

    /// The current round.
    pub fn generation(&self) -> (r: u64)
        ensures
            r == self@.generation,
    {
        self.generation
    }

    /// Registers one arrival. Returns the next state and whether this arrival
    /// completed the round.
    pub fn arrive(self) -> (r: (BarrierState, bool))
        ensures
            in_bounds(self@),
            (r.0@, r.1) == arrive_spec(self@),
            in_bounds(r.0@),
    {
        proof {
            use_type_invariant(&self);
        }
        if self.waiting + 1 == self.parties {
            let generation = if self.generation == u64::MAX {
                0
            } else {
                self.generation + 1
            };
            (BarrierState { parties: self.parties, waiting: 0, generation }, true)
        } else {
            (BarrierState { parties: self.parties, waiting: self.waiting + 1, generation: self.generation }, false)
        }
    }

    /// Whether a party that arrived in round `generation` must keep waiting.
    pub fn in_round(&self, generation: u64) -> (r: bool)
        ensures
            r == !released(self@, generation as nat),
    {
        self.generation == generation
    }
}

/// Relies on std::sync::Condvar::wait_while: with the mutex held it calls
/// `BarrierState::in_round(generation)`, parks the thread while that returns
/// true, and returns once the round has moved on. Spurious wakeups only lead
/// to another check.
#[verifier::external_body]
fn wait_for_round<'a>(
    cv: &Condvar,
    g: MutexGuard<'a, BarrierState>,
    generation: u64,
) -> MutexGuard<'a, BarrierState> {
    cv.wait_while(g, |s| s.in_round(generation)).unwrap_or_else(
        std::sync::PoisonError::into_inner,
    )
}

/// A reusable barrier for a fixed number of parties.
///
/// Each call of `wait` blocks until as many calls as there are parties have
/// arrived in the current round. The last arrival completes the round, wakes
/// the others and gets `Triggered`; the others get `Released`. The barrier is
/// then ready for the next round.
#[derive(Debug)]
pub struct CyclicBarrier {
    state: Mutex<BarrierState>,
    round_done: Condvar,
}

impl CyclicBarrier {
    /// A barrier for `count` parties.
    pub fn new(count: u32) -> CyclicBarrier
        requires
            count > 0,
    {
        CyclicBarrier { state: Mutex::new(BarrierState::new(count)), round_done: Condvar::new() }
    }

    /// Arrives at the barrier and waits for the rest of the round.
    ///
    /// Whether this call completes the round depends on the other threads;
    /// the decision is the step `BarrierState::arrive` taken under the mutex.
    pub fn wait(&self) -> BarrierWaitResult {
        let mut g = lock(&self.state);
        let arrived = load(&g);
        let generation = arrived.generation();
        let (next, triggered) = arrived.arrive();
        store(&mut g, next);
        if triggered {
            self.round_done.notify_all();
            BarrierWaitResult::Triggered
        } else {
            let _g = wait_for_round(&self.round_done, g, generation);
            BarrierWaitResult::Released
        }
    }
}

/// The arrivals of one round, made in any order from an idle barrier: none
/// but the last completes the round, the last does, and until it comes the
/// round does not change, so no party is released early. Afterwards the
/// barrier is idle again, one round on, and every party of the round is
/// released.
pub proof fn lemma_round(v: BarrierView, k: nat)
    requires
        in_bounds(v),
        v.waiting == 0,
        k <= v.parties,
    ensures
        k < v.parties ==> after_arrivals(v, k) == (BarrierView { waiting: k, ..v }),
        k < v.parties ==> triggers(v, k) == 0,
        k < v.parties ==> !released(after_arrivals(v, k), v.generation),
        k == v.parties ==> after_arrivals(v, k) == (BarrierView {
            waiting: 0,
            generation: next_generation(v.generation),
            ..v
        }),
        k == v.parties ==> triggers(v, k) == 1,
        k == v.parties ==> released(after_arrivals(v, k), v.generation),
    decreases k,
{
    if k > 0 {
        lemma_round(v, (k - 1) as nat);
    }
}

/// Arrivals split at any point: the second part starts where the first ends.
pub proof fn lemma_arrivals_compose(v: BarrierView, a: nat, b: nat)
    ensures
        after_arrivals(v, a + b) == after_arrivals(after_arrivals(v, a), b),
        triggers(v, a + b) == triggers(v, a) + triggers(after_arrivals(v, a), b),
    decreases b,
{
    if b > 0 {
        lemma_arrivals_compose(v, a, (b - 1) as nat);
        assert((a + b - 1) as nat == a + (b - 1) as nat);
    }
}

/// The idle barrier `v` moved on by `r` rounds.
pub open spec fn idle_after_rounds(v: BarrierView, r: nat) -> BarrierView {
    BarrierView { waiting: 0, generation: generation_after(v.generation, r), ..v }
}

/// Reuse: from an idle barrier, once `r` rounds have been completed, the
/// next `k` arrivals behave as on a fresh idle barrier one that is `r`
/// rounds on; exactly one arrival per round has completed it.
pub proof fn lemma_rounds_repeat(v: BarrierView, r: nat, k: nat)
    requires
        in_bounds(v),
        v.waiting == 0,
        k <= v.parties,
    ensures
        in_bounds(idle_after_rounds(v, r)),
        after_arrivals(v, r * v.parties + k) == after_arrivals(idle_after_rounds(v, r), k),
        triggers(v, r * v.parties + k) == r + triggers(idle_after_rounds(v, r), k),
    decreases r,
{
    let p = v.parties;
    if r == 0 {
        assert(idle_after_rounds(v, 0) == v);
        assert(r * p + k == k) by (nonlinear_arith)
            requires
                r == 0,
        ;
    } else {
        let q = (r - 1) as nat;
        lemma_rounds_repeat(v, q, p);
        lemma_round(idle_after_rounds(v, q), p);
        assert(after_arrivals(idle_after_rounds(v, q), p) == idle_after_rounds(v, r));
        assert(q * p + p == r * p) by (nonlinear_arith)
            requires
                q == r - 1,
        ;
        lemma_arrivals_compose(v, r * p, k);
    }
}

/// A party is released by the completion of its own round and by nothing
/// earlier: one that arrives after `i` arrivals of round `r` (counted from
/// an idle barrier) is still held after `j` arrivals of that round for every
/// `j` below the party count, and released once the round is full.
pub proof fn lemma_held_until_own_round(v: BarrierView, r: nat, i: nat, j: nat)
    requires
        in_bounds(v),
        v.waiting == 0,
        i < j <= v.parties,
    ensures
        released(
            after_arrivals(v, r * v.parties + j),
            after_arrivals(v, r * v.parties + i).generation,
        ) == (j == v.parties),
{
    lemma_rounds_repeat(v, r, i);
    lemma_rounds_repeat(v, r, j);
    lemma_round(idle_after_rounds(v, r), i);
    lemma_round(idle_after_rounds(v, r), j);
}

} // verus!
