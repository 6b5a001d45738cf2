//! Laws of the session's per-frame transition.
//!
//! These proof functions state, over the spec-level transition
//! `spec_gate_step`, the guarantees a session gives across whole frame
//! sequences: the count is monotone and bounded, `Success` is reached
//! exactly when the count reaches the target and is then irreversible
//! (short of `start`/`reset`, whose contracts clear it), a gesture
//! scores only on the frame its stability run reaches the threshold,
//! and a score locks further scoring until a raw `NoGesture` frame
//! releases it.

use vstd::prelude::*;

use crate::classifier::GestureType;
use crate::gate::{spec_gate_scored, spec_gate_step, GestureGate};

verus! {

/// One frame never lowers the count and never pushes it past the
/// target; the count moves exactly when the frame scores, and then by
/// exactly one. The configuration (target, threshold) is never touched
/// by a frame, and a well-formed gate stays well-formed. Together with
/// `fail`'s contract (count unchanged) this says the count decreases
/// only through `start`/`reset`.
pub proof fn lemma_step_count_monotone(s: GestureGate, g: GestureType)
    requires
        s.wf(),
    ensures
        spec_gate_step(s, g).wf(),
        spec_gate_step(s, g).count >= s.count,
        spec_gate_step(s, g).count <= s.target,
        spec_gate_scored(s, g) ==> spec_gate_step(s, g).count == s.count + 1,
        !spec_gate_scored(s, g) ==> spec_gate_step(s, g).count == s.count,
        spec_gate_step(s, g).target == s.target,
        spec_gate_step(s, g).stable_frames == s.stable_frames,
{
}

/// After any frame, a session stands in `Success` exactly when its count
/// has reached the target: scoring the target-th gesture transitions in
/// that same frame, and no other frame can leave the count at the
/// target without the transition.
pub proof fn lemma_success_iff_count_reached(s: GestureGate, g: GestureType)
    requires
        s.wf(),
    ensures
        spec_gate_step(s, g).state is Success <==> spec_gate_step(s, g).count >= s.target,
{
}

/// `Success` is terminal for the attempt: no frame leaves it or moves
/// the count, so the transition into it happens exactly once per
/// attempt.
pub proof fn lemma_success_stays(s: GestureGate, g: GestureType)
    requires
        s.wf(),
        s.state is Success,
    ensures
        spec_gate_step(s, g).state is Success,
        spec_gate_step(s, g).count == s.count,
{
}

/// A raw `NoGesture` frame — among them the substitute for a malformed
/// frame — never scores, never changes the count or the lifecycle
/// state, resets the stability tracker, and releases the lockout in
/// every lifecycle state, not only while `Running`.
pub proof fn lemma_no_gesture_frame(s: GestureGate)
    ensures
        !spec_gate_scored(s, GestureType::NoGesture),
        spec_gate_step(s, GestureType::NoGesture) == (GestureGate {
            pending_gesture: GestureType::NoGesture,
            current_stable_count: 0u32,
            can_score: true,
            ..s
        }),
{
}

/// The session state after `n` consecutive frames that all classify as `g`.
pub open spec fn spec_run_frames(s: GestureGate, g: GestureType, n: nat) -> GestureGate
    decreases n,
{
    if n == 0 {
        s
    } else {
        spec_gate_step(spec_run_frames(s, g, (n - 1) as nat), g)
    }
}

/// Debounce: presenting a fresh gesture to a running, armed gate for
/// fewer than `stable_frames` consecutive frames changes nothing but
/// the stability tracker and never scores; the `stable_frames`-th
/// consecutive frame scores, exactly once, and locks the session.
pub proof fn lemma_debounce(s: GestureGate, g: GestureType, n: nat)
    requires
        s.wf(),
        s.state is Running,
        s.can_score,
        g != GestureType::NoGesture,
        s.pending_gesture != g,
        n <= s.stable_frames,
    ensures
        1 <= n < s.stable_frames ==> spec_run_frames(s, g, n) == (GestureGate {
            pending_gesture: g,
            current_stable_count: n as u32,
            ..s
        }),
        1 <= n < s.stable_frames ==> !spec_gate_scored(spec_run_frames(s, g, (n - 1) as nat), g),
        n == s.stable_frames ==> spec_gate_scored(spec_run_frames(s, g, (n - 1) as nat), g),
        n == s.stable_frames ==> spec_run_frames(s, g, n).count == s.count + 1
            && spec_run_frames(s, g, n).can_score == false,
    decreases n,
{
    if n > 0 {
        lemma_debounce(s, g, (n - 1) as nat);
    }
}

/// A locked gate stays locked while the hand holds any recognized pose:
/// after a score, frames of a gesture (the same or the other one) never
/// score again until a raw `NoGesture` frame comes in between.
pub proof fn lemma_no_rescore_without_release(s: GestureGate, g: GestureType, n: nat)
    requires
        !s.can_score,
        g != GestureType::NoGesture,
    ensures
        spec_run_frames(s, g, n).count == s.count,
        !spec_run_frames(s, g, n).can_score,
        spec_run_frames(s, g, n).state == s.state,
        n >= 1 ==> !spec_gate_scored(spec_run_frames(s, g, (n - 1) as nat), g),
    decreases n,
{
    if n > 0 {
        lemma_no_rescore_without_release(s, g, (n - 1) as nat);
    }
}

/// Re-arm: one raw `NoGesture` frame releases the lockout of a running
/// gate without touching the count, and `stable_frames` consecutive
/// frames of any recognized gesture then score again.
pub proof fn lemma_rearm_after_release(s: GestureGate, g: GestureType)
    requires
        s.wf(),
        s.state is Running,
        g != GestureType::NoGesture,
    ensures
        spec_gate_step(s, GestureType::NoGesture).can_score,
        spec_gate_step(s, GestureType::NoGesture).count == s.count,
        spec_gate_step(s, GestureType::NoGesture).state is Running,
        spec_run_frames(spec_gate_step(s, GestureType::NoGesture), g, s.stable_frames as nat).count
            == s.count + 1,
{
    lemma_no_gesture_frame(s);
    lemma_debounce(spec_gate_step(s, GestureType::NoGesture), g, s.stable_frames as nat);
}

} // verus!
