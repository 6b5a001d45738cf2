//! The gesture gate: a counting challenge driven by one classified
//! gesture per frame.
//!
//! The session debounces the raw per-frame label (a gesture must hold for
//! `stable_frames` consecutive frames before it is trusted), scores each
//! occurrence at most once (`can_score` re-arms only when the raw label
//! returns to `NoGesture`), and advances the lifecycle
//! `Idle -> Running -> Success | Failed`.

use vstd::prelude::*;
use vstd::string::StringExecFns;

use crate::classifier::{
    classify, spec_classify, spec_classify_frame, spec_gesture_label, GestureType, Landmark,
    FRAME_LEN,
};

verus! {

/// Default number of consecutive identical non-`NoGesture` frames
/// required before a gesture is trusted for scoring.
pub const DEFAULT_STABLE_FRAMES: u32 = 3;

/// Lifecycle state of one counting attempt.
#[derive(Clone, Copy, PartialEq, Eq, Structural, Debug)]
pub enum GateState {
    /// Waiting to start.
    Idle,
    /// Counting gestures.
    Running,
    /// The target count was reached.
    Success,
    /// Time ran out before the target count was reached.
    Failed,
}

/// The external string label of each lifecycle state.
pub open spec fn spec_state_label(s: GateState) -> Seq<char> {
    match s {
        GateState::Idle => "idle"@,
        GateState::Running => "running"@,
        GateState::Success => "success"@,
        GateState::Failed => "failed"@,
    }
}

impl GateState {
    /// The external string label of this state.
    pub fn as_str(&self) -> (r: &'static str)
        ensures
            r@ == spec_state_label(*self),
    {
        match self {
            GateState::Idle => "idle",
            GateState::Running => "running",
            GateState::Success => "success",
            GateState::Failed => "failed",
        }
    }
}

/// What one processed frame reports back to the caller.
#[derive(Debug)]
pub struct FrameResult {
    pub gesture: String,
    pub state: String,
    pub count: u32,
    pub scored: bool,
}

/// The landmark frame that a pair of parallel coordinate arrays stands
/// for: point `i` is `(xs[i], ys[i])` with depth 0, for the first
/// `FRAME_LEN` points.
pub open spec fn spec_raw_frame(xs: Seq<i32>, ys: Seq<i32>) -> Seq<Landmark> {
    Seq::new(FRAME_LEN as nat, |i: int| (Landmark { x: xs[i], y: ys[i], z: 0 }))
}

/// The gesture gate state machine.
pub struct GestureGate {
    pub state: GateState,
    pub count: u32,
    pub target: u32,
    /// The gesture that last scored.
    pub last_gesture: GestureType,
    /// Debounce lockout: set on a score, released when the raw label
    /// returns to `NoGesture`.
    pub can_score: bool,
    /// Minimum consecutive frames for a gesture to be considered stable.
    pub stable_frames: u32,
    /// Length of the current run of identical non-`NoGesture` labels.
    pub current_stable_count: u32,
    /// The label the current run consists of.
    pub pending_gesture: GestureType,
}

/// The stability run length after one more frame of the same gesture;
/// it stops at `u32::MAX` rather than wrap, and a run that long is far
/// beyond any stability threshold anyway.
pub open spec fn spec_run_inc(n: u32) -> u32 {
    if n < u32::MAX {
        (n + 1) as u32
    } else {
        n
    }
}

/// The stability-tracking update for one raw label `g`: an unbroken run
/// of the pending gesture grows by one; any other label starts a fresh
/// run (of length 1, or 0 for `NoGesture`).
pub open spec fn spec_stability_update(s: GestureGate, g: GestureType) -> GestureGate {
    if g == s.pending_gesture && g != GestureType::NoGesture {
        GestureGate { current_stable_count: spec_run_inc(s.current_stable_count), ..s }
    } else {
        GestureGate {
            pending_gesture: g,
            current_stable_count: if g != GestureType::NoGesture {
                1u32
            } else {
                0u32
            },
            ..s
        }
    }
}

/// Whether processing raw label `g` in state `s` awards a count: only
/// while `Running`, only when the lockout is released, and only once the
/// updated run length reaches the stability threshold.
pub open spec fn spec_gate_scored(s: GestureGate, g: GestureType) -> bool {
    &&& s.state is Running
    &&& s.can_score
    &&& g != GestureType::NoGesture
    &&& spec_stability_update(s, g).current_stable_count >= s.stable_frames
}

/// The whole per-frame transition on raw label `g`: stability tracking
/// always runs; scoring applies only while `Running`, and the count
/// reaching the target transitions to `Success` in the same frame; the
/// re-arm on a raw `NoGesture` applies in every lifecycle state — a
/// momentary departure from the pose always releases the lockout.
pub open spec fn spec_gate_step(s: GestureGate, g: GestureType) -> GestureGate {
    let t = spec_stability_update(s, g);
    let scored_state = if spec_gate_scored(s, g) {
        GestureGate {
            count: (s.count + 1) as u32,
            last_gesture: g,
            can_score: false,
            state: if s.count + 1 >= s.target {
                GateState::Success
            } else {
                GateState::Running
            },
            ..t
        }
    } else {
        t
    };
    if g is NoGesture {
        GestureGate { can_score: true, ..scored_state }
    } else {
        scored_state
    }
}

impl GestureGate {
    /// Well-formedness: every gate reachable through this interface keeps
    /// its count within the target and ties each lifecycle state to where
    /// the count can stand in it.
    pub open spec fn wf(self) -> bool {
        &&& self.target >= 1
        &&& self.stable_frames >= 1
        &&& self.count <= self.target
        &&& (self.state is Idle ==> self.count == 0)
        &&& (self.state is Running ==> self.count < self.target)
        &&& (self.state is Success ==> self.count == self.target)
        &&& (self.state is Failed ==> self.count < self.target)
    }

    /// Create a gate in `Idle` that will require `target` scored gestures.
    pub fn new(target: u32) -> (g: GestureGate)
        requires
            1 <= target,
        ensures
            g == (GestureGate {
                state: GateState::Idle,
                count: 0u32,
                target: target,
                last_gesture: GestureType::NoGesture,
                can_score: true,
                stable_frames: DEFAULT_STABLE_FRAMES,
                current_stable_count: 0u32,
                pending_gesture: GestureType::NoGesture,
            }),
            g.wf(),
    {
        GestureGate {
            state: GateState::Idle,
            count: 0,
            target,
            last_gesture: GestureType::NoGesture,
            can_score: true,
            stable_frames: DEFAULT_STABLE_FRAMES,
            current_stable_count: 0,
            pending_gesture: GestureType::NoGesture,
        }
    }

    /// Start an attempt: clear the count and all stability state and
    /// enter `Running`.
    pub fn start(&mut self)
        ensures
            *final(self) == (GestureGate {
                state: GateState::Running,
                count: 0u32,
                target: old(self).target,
                last_gesture: GestureType::NoGesture,
                can_score: true,
                stable_frames: old(self).stable_frames,
                current_stable_count: 0u32,
                pending_gesture: GestureType::NoGesture,
            }),
            old(self).wf() ==> final(self).wf(),
    {
        self.state = GateState::Running;
        self.count = 0;
        self.last_gesture = GestureType::NoGesture;
        self.can_score = true;
        self.current_stable_count = 0;
        self.pending_gesture = GestureType::NoGesture;
    }

    /// Abandon the attempt: clear the count and all stability state and
    /// return to `Idle`.
    pub fn reset(&mut self)
        ensures
            *final(self) == (GestureGate {
                state: GateState::Idle,
                count: 0u32,
                target: old(self).target,
                last_gesture: GestureType::NoGesture,
                can_score: true,
                stable_frames: old(self).stable_frames,
                current_stable_count: 0u32,
                pending_gesture: GestureType::NoGesture,
            }),
            old(self).wf() ==> final(self).wf(),
    {
        self.state = GateState::Idle;
        self.count = 0;
        self.last_gesture = GestureType::NoGesture;
        self.can_score = true;
        self.current_stable_count = 0;
        self.pending_gesture = GestureType::NoGesture;
    }

    /// External timeout: a `Running` attempt becomes `Failed`; in any
    /// other state this is a no-op, so a late timer is harmless.
    pub fn fail(&mut self)
        ensures
            old(self).state is Running ==> final(self).state is Failed,
            !(old(self).state is Running) ==> final(self).state == old(self).state,
            final(self).count == old(self).count,
            final(self).target == old(self).target,
            final(self).last_gesture == old(self).last_gesture,
            final(self).can_score == old(self).can_score,
            final(self).stable_frames == old(self).stable_frames,
            final(self).current_stable_count == old(self).current_stable_count,
            final(self).pending_gesture == old(self).pending_gesture,
            old(self).wf() ==> final(self).wf(),
    {
        if self.state == GateState::Running {
            self.state = GateState::Failed;
        }
    }

    /// Current count of scored gestures.
    pub fn get_count(&self) -> (r: u32)
        ensures
            r == self.count,
    {
        self.count
    }

    /// Current lifecycle state as its string label.
    pub fn get_state(&self) -> (r: String)
        ensures
            r@ == spec_state_label(self.state),
    {
        String::from_str(self.state.as_str())
    }

    /// Whether the attempt succeeded.
    pub fn is_unlocked(&self) -> (r: bool)
        ensures
            r == (self.state is Success),
    {
        self.state == GateState::Success
    }

    /// Whether the attempt failed.
    pub fn is_failed(&self) -> (r: bool)
        ensures
            r == (self.state is Failed),
    {
        self.state == GateState::Failed
    }

    /// Whether an attempt is in progress.
    pub fn is_running(&self) -> (r: bool)
        ensures
            r == (self.state is Running),
    {
        self.state == GateState::Running
    }

    /// Process one frame of landmarks: classify it, fold the label into
    /// the stability tracker, and score if the debounce rules allow.
    /// Returns the raw label and whether this frame scored. A frame with
    /// fewer than `FRAME_LEN` landmarks classifies as `NoGesture` and is
    /// folded in like any other no-gesture frame: it resets the
    /// stability run, releases the lockout, and can neither score nor
    /// change the count or lifecycle state.
    pub fn process_landmarks_internal(&mut self, landmarks: &Vec<Landmark>) -> (r: (
        GestureType,
        bool,
    ))
        requires
            old(self).wf(),
        ensures
            final(self).wf(),
            r.0 == spec_classify_frame(landmarks@),
            *final(self) == spec_gate_step(*old(self), r.0),
            r.1 == spec_gate_scored(*old(self), r.0),
    {
        // A malformed frame must not be classified as a gesture: it
        // degrades to the `NoGesture` label and runs the same update.
        let gesture = classify(landmarks);
        let mut scored = false;

        // Stability tracking runs in every lifecycle state, so it is
        // already warm when an attempt starts.
        if gesture == self.pending_gesture && gesture != GestureType::NoGesture {
            if self.current_stable_count < u32::MAX {
                self.current_stable_count = self.current_stable_count + 1;
            }
        } else {
            self.pending_gesture = gesture;
            self.current_stable_count = if gesture != GestureType::NoGesture {
                1
            } else {
                0
            };
        }

        if self.state == GateState::Running {
            let stable = self.current_stable_count >= self.stable_frames;
            if stable && gesture != GestureType::NoGesture && self.can_score {
                self.count = self.count + 1;
                self.last_gesture = gesture;
                self.can_score = false;
                scored = true;
                if self.count >= self.target {
                    self.state = GateState::Success;
                }
            }
        }

        // Re-arm on the raw label, not the debounced one, and in every
        // lifecycle state: a single frame away from the pose releases
        // the lockout.
        if gesture == GestureType::NoGesture {
            self.can_score = true;
        }

        (gesture, scored)
    }

    /// Process one frame given as a sequence of landmarks and report the
    /// raw label, state label, count and scored flag for this frame.
    /// A short frame classifies as `NoGesture` and is folded in like
    /// any other no-gesture frame.
    pub fn process_landmarks(&mut self, landmarks: &Vec<Landmark>) -> (r: FrameResult)
        requires
            old(self).wf(),
        ensures
            final(self).wf(),
            *final(self) == spec_gate_step(*old(self), spec_classify_frame(landmarks@)),
            r.scored == spec_gate_scored(*old(self), spec_classify_frame(landmarks@)),
            r.gesture@ == spec_gesture_label(spec_classify_frame(landmarks@)),
            r.state@ == spec_state_label(final(self).state),
            r.count == final(self).count,
    {
        let (gesture, scored) = self.process_landmarks_internal(landmarks);
        FrameResult {
            gesture: String::from_str(gesture.as_str()),
            state: String::from_str(self.state.as_str()),
            count: self.count,
            scored,
        }
    }

    /// Process one frame given as parallel coordinate arrays. Arrays of
    /// length at least `FRAME_LEN` describe the same points as the
    /// sequence form and classify identically; shorter arrays are a
    /// malformed frame and are folded in as a `NoGesture` frame, like
    /// the sequence form.
    pub fn process_raw(&mut self, xs: &Vec<i32>, ys: &Vec<i32>) -> (r: FrameResult)
        requires
            old(self).wf(),
        ensures
            final(self).wf(),
            xs@.len() < FRAME_LEN || ys@.len() < FRAME_LEN ==> *final(self) == spec_gate_step(
                *old(self),
                GestureType::NoGesture,
            ) && r.scored == false && r.gesture@ == spec_gesture_label(GestureType::NoGesture),
            xs@.len() >= FRAME_LEN && ys@.len() >= FRAME_LEN ==> *final(self) == spec_gate_step(
                *old(self),
                spec_classify(spec_raw_frame(xs@, ys@)),
            ) && r.scored == spec_gate_scored(*old(self), spec_classify(spec_raw_frame(xs@, ys@)))
                && r.gesture@ == spec_gesture_label(spec_classify(spec_raw_frame(xs@, ys@))),
            r.state@ == spec_state_label(final(self).state),
            r.count == final(self).count,
    {
        if xs.len() < FRAME_LEN || ys.len() < FRAME_LEN {
            // A malformed frame is a no-gesture frame: run the same
            // update the sequence form runs for one.
            let empty: Vec<Landmark> = Vec::new();
            return self.process_landmarks(&empty);
        }

        let mut landmarks: Vec<Landmark> = Vec::new();
        let mut i: usize = 0;
        while i < FRAME_LEN
            invariant
                i <= FRAME_LEN,
                landmarks@.len() == i as nat,
                xs@.len() >= FRAME_LEN,
                ys@.len() >= FRAME_LEN,
                forall|k: int|
                    0 <= k < i ==> landmarks@[k] == (Landmark { x: xs@[k], y: ys@[k], z: 0 }),
                *self == *old(self),
            decreases FRAME_LEN - i,
        {
            landmarks.push(Landmark { x: xs[i], y: ys[i], z: 0 });
            i = i + 1;
        }
        proof {
            assert(landmarks@ =~= spec_raw_frame(xs@, ys@));
        }
        self.process_landmarks(&landmarks)
    }
}

} // verus!
