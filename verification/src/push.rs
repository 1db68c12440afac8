//! The readiness-guarded push of the initial state to the UI.
//!
//! A background task repeatedly takes one `update_state` step until the step
//! emits. The latch guarantees the automatic push is delivered exactly once
//! per process lifetime, strictly after the UI has signaled readiness, with a
//! snapshot that already carries `ready == true`. Performing the delivery
//! (and aborting on a startup invariant violation) is the surrounding
//! shell's work; the decision is made here.

use vstd::prelude::*;
use crate::state::{AppState, StateStore};

verus! {

/// Tracks whether the one automatic push has already been delivered.
pub struct PushLatch {
    pushed: bool,
}

impl PushLatch {
    /// Whether the automatic push has already been delivered through this latch.
    pub closed spec fn has_pushed(&self) -> bool {
        self.pushed
    }

    /// A fresh latch, before any push.
    pub fn new() -> (r: PushLatch)
        ensures
            !r.has_pushed(),
    {
        PushLatch { pushed: false }
    }
}

/// What the push task is to do after one step at the latch.
pub enum PushAction {
    /// The UI has not signaled readiness yet, or the push already happened:
    /// nothing to deliver now.
    Wait,
    /// Readiness was observed but no window has been bound: a bootstrap
    /// ordering bug, fatal to the process.
    StartupInvariantViolation,
    /// Deliver this snapshot to the UI.
    Emit(AppState),
}

/// Whether a push step emits, given the latch flag and what the step observes.
pub open spec fn step_emits(pushed: bool, ready: bool, window_bound: bool) -> bool {
    !pushed && ready && window_bound
}

/// The latch flag after a push step: set exactly when the push goes out.
pub open spec fn step_after(pushed: bool, ready: bool, window_bound: bool) -> bool {
    pushed || (ready && window_bound)
}

/// One step of the push task: observes the store and whether the UI window
/// has been bound, and decides. It emits the full current snapshot exactly
/// when the UI is ready, the window is bound and nothing was pushed before;
/// the emitted snapshot already carries the readiness flag.
pub fn update_state(latch: &mut PushLatch, store: &StateStore, window_bound: bool) -> (r:
    PushAction)
    ensures
        final(latch).has_pushed() == step_after(
            old(latch).has_pushed(),
            store@.ready,
            window_bound,
        ),
        (r is Emit) == step_emits(old(latch).has_pushed(), store@.ready, window_bound),
        (r is StartupInvariantViolation) == (!old(latch).has_pushed() && store@.ready
            && !window_bound),
        (r is Wait) == (old(latch).has_pushed() || !store@.ready),
        (r matches PushAction::Emit(st) ==> st@ == store@ && st@.ready),
{
    if latch.pushed {
        return PushAction::Wait;
    }
    let snapshot = store.get_snapshot();
    if !snapshot.ready {
        return PushAction::Wait;
    }
    if !window_bound {
        return PushAction::StartupInvariantViolation;
    }
    latch.pushed = true;
    PushAction::Emit(snapshot)
}

/// How many steps of a run emit the automatic push, given the latch flag at
/// the start; each step observes a readiness flag and whether the window is
/// bound.
pub open spec fn emit_count(pushed: bool, steps: Seq<(bool, bool)>) -> nat
    decreases steps.len(),
{
    if steps.len() == 0 {
        0
    } else {
        (if step_emits(pushed, steps[0].0, steps[0].1) {
            1nat
        } else {
            0nat
        }) + emit_count(step_after(pushed, steps[0].0, steps[0].1), steps.skip(1))
    }
}

/// Once the latch has pushed, no later step emits again.
pub proof fn lemma_no_emit_after_push(steps: Seq<(bool, bool)>)
    ensures
        emit_count(true, steps) == 0,
    decreases steps.len(),
{
    if steps.len() > 0 {
        lemma_no_emit_after_push(steps.skip(1));
    }
}

/// The automatic push happens at most once over any run of push steps,
/// however the latch started and whatever each step observes.
pub proof fn lemma_push_at_most_once(pushed: bool, steps: Seq<(bool, bool)>)
    ensures
        emit_count(pushed, steps) <= 1,
    decreases steps.len(),
{
    if steps.len() > 0 {
        if step_emits(pushed, steps[0].0, steps[0].1) {
            lemma_no_emit_after_push(steps.skip(1));
        } else {
            lemma_push_at_most_once(step_after(pushed, steps[0].0, steps[0].1), steps.skip(1));
        }
    }
}

/// And exactly once when the latch starts fresh and some step observes the UI
/// ready with the window bound.
pub proof fn lemma_push_exactly_once(steps: Seq<(bool, bool)>)
    requires
        exists|i: int| 0 <= i < steps.len() && steps[i].0 && steps[i].1,
    ensures
        emit_count(false, steps) == 1,
    decreases steps.len(),
{
    let i = choose|i: int| 0 <= i < steps.len() && steps[i].0 && steps[i].1;
    if steps[0].0 && steps[0].1 {
        lemma_no_emit_after_push(steps.skip(1));
    } else {
        assert(steps.skip(1)[i - 1] == steps[i]);
        lemma_push_exactly_once(steps.skip(1));
    }
}

} // verus!
