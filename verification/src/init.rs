use vstd::prelude::*;

use crate::gate::ReadinessGate;
use crate::status::LoadState;
use crate::status::aggregate;

verus! {

/// Whether the dependent-construction action fires on a tick that
/// observes aggregate state `state` while the guard holds `done`:
/// exactly when the aggregate state is `Loaded` and the guard is still unset.
pub open spec fn fires(done: bool, state: LoadState) -> bool {
    state is Loaded && !done
}

/// The guard value after such a tick: once set it stays set, and it is
/// set by the first `Loaded` observation.
pub open spec fn guard_after(done: bool, state: LoadState) -> bool {
    done || state is Loaded
}

/// How many times the action fires across a run of ticks that observe
/// the aggregate states `states` in order, starting from guard value
/// `done`.
pub open spec fn fire_count(done: bool, states: Seq<LoadState>) -> nat
    decreases states.len(),
{
    if states.len() == 0 {
        0
    } else {
        (if fires(done, states[0]) {
            1nat
        } else {
            0nat
        }) + fire_count(guard_after(done, states[0]), states.subrange(1, states.len() as int))
    }
}

/// Guard of the deferred initializer: a single-use flag that keeps the
/// dependent-construction action from firing more than once. It starts
/// unset and transitions to set exactly once, never back. Exclusive
/// access (`&mut`) makes each transition attempt a single indivisible
/// step: no two observers can both see the guard unset.
pub struct InitGuard {
    done: bool,
}

impl InitGuard {
    /// Whether the guard has been set, that is, whether the action has
    /// already fired.
    pub closed spec fn is_done(&self) -> bool {
        self.done
    }

    /// A fresh guard, still unset.
    pub fn new() -> (g: Self)
        ensures
            !g.is_done(),
    {
        InitGuard { done: false }
    }

    /// Whether the action has already fired.
    pub fn done(&self) -> (b: bool)
        ensures
            b == self.is_done(),
    {
        self.done
    }

    /// One tick's transition attempt: reports whether the action is to
    /// fire now, and sets the guard on the first `Loaded` observation.
    /// Returns true exactly when `state` is `Loaded` and the guard was
    /// still unset; every later attempt is a no-op that returns false.
    pub fn try_fire(&mut self, state: LoadState) -> (fire: bool)
        ensures
            fire == fires(old(self).is_done(), state),
            final(self).is_done() == guard_after(old(self).is_done(), state),
    {
        if !self.done && matches!(state, LoadState::Loaded) {
            self.done = true;
            true
        } else {
            if matches!(state, LoadState::Loaded) {
                self.done = true;
            }
            false
        }
    }
}

/// One scheduler tick: polls the readiness gate over the statuses that the
/// asset-loading collaborator reports (`statuses[i]` belongs to the
/// handle at position `i`) and decides whether the dependent-construction
/// action fires now. Returns the aggregate state and that decision; the
/// caller performs the action itself when the decision is true.
pub fn tick(gate: &ReadinessGate, guard: &mut InitGuard, statuses: &Vec<LoadState>) -> (r: (
    LoadState,
    bool,
))
    requires
        statuses@.len() == gate.handles_seq().len(),
    ensures
        r.0 == aggregate(statuses@),
        r.1 == fires(old(guard).is_done(), aggregate(statuses@)),
        final(guard).is_done() == guard_after(old(guard).is_done(), aggregate(statuses@)),
{
    let state = gate.poll(statuses);
    let fire = guard.try_fire(state);
    (state, fire)
}

/// Once the guard is set the action never fires again, over any run of
/// further ticks and whatever states they observe.
pub proof fn lemma_done_never_fires(states: Seq<LoadState>)
    ensures
        fire_count(true, states) == 0,
    decreases states.len(),
{
    if states.len() > 0 {
        lemma_done_never_fires(states.subrange(1, states.len() as int));
    }
}

/// The action executes at most once across any number of ticks, starting
/// from a fresh guard, however the observed aggregate states unfold —
/// including runs where every tick after the first firing still observes
/// `Loaded`.
pub proof fn lemma_fires_at_most_once(states: Seq<LoadState>)
    ensures
        fire_count(false, states) <= 1,
    decreases states.len(),
{
    if states.len() > 0 {
        if states[0] is Loaded {
            lemma_done_never_fires(states.subrange(1, states.len() as int));
        } else {
            lemma_fires_at_most_once(states.subrange(1, states.len() as int));
        }
    }
}

/// Starting from a fresh guard, the action executes exactly once if and
/// only if some tick observes `Loaded`: one firing is owed to the first
/// such observation, and no more than one ever happens.
pub proof fn lemma_fires_exactly_once(states: Seq<LoadState>)
    ensures
        fire_count(false, states) == 1 <==> exists|i: int|
            0 <= i < states.len() && states[i] is Loaded,
    decreases states.len(),
{
    lemma_fires_at_most_once(states);
    if states.len() > 0 {
        let rest = states.subrange(1, states.len() as int);
        if states[0] is Loaded {
            lemma_done_never_fires(rest);
            assert(states[0] is Loaded && 0 <= 0 < states.len());
        } else {
            lemma_fires_exactly_once(rest);
            if fire_count(false, states) == 1 {
                let j = choose|j: int| 0 <= j < rest.len() && rest[j] is Loaded;
                assert(states[j + 1] is Loaded);
            }
            if exists|i: int| 0 <= i < states.len() && states[i] is Loaded {
                let i = choose|i: int| 0 <= i < states.len() && states[i] is Loaded;
                assert(rest[i - 1] is Loaded);
            }
        }
    }
}

/// Racing observers, each making one exclusive transition attempt while
/// the readiness gate reports `Loaded`: whatever order the attempts run in,
/// exactly one of them wins the flag transition, so the action is invoked
/// exactly once.
pub proof fn lemma_race_single_winner(states: Seq<LoadState>)
    requires
        states.len() > 0,
        forall|i: int| 0 <= i < states.len() ==> states[i] is Loaded,
    ensures
        fire_count(false, states) == 1,
{
    lemma_fires_exactly_once(states);
    assert(states[0] is Loaded);
}

} // verus!
