//! Stateless gesture classification over one frame of hand landmarks.
//!
//! A frame carries 21 landmarks in a fixed anatomical order (wrist=0,
//! thumb=1..=4, index=5..=8, middle=9..=12, ring=13..=16, pinky=17..=20).
//! Coordinates are fixed-point: `COORD_UNITS_PER_ONE` units stand for 1.0
//! of the tracker's normalized image space, in which `y` grows downward.

use vstd::prelude::*;

verus! {

/// Fixed-point coordinate units per 1.0 of the normalized image space:
/// a landmark at normalized 0.25 has coordinate 2500.
pub const COORD_UNITS_PER_ONE: i32 = 10_000;

/// Noise margin of the finger-extension test, in coordinate units
/// (0.02 of the normalized space). A finger counts as extended only when
/// its tip sits strictly more than this margin above its PIP joint.
pub const FINGER_MARGIN: i32 = 200;

/// Number of landmarks a well-formed frame carries.
pub const FRAME_LEN: usize = 21;

/// One tracked hand landmark in fixed-point image coordinates.
/// `z` is depth; the classification rules do not read it.
#[derive(Clone, Copy, PartialEq, Eq, Structural, Debug)]
pub struct Landmark {
    pub x: i32,
    pub y: i32,
    pub z: i32,
}

/// The gesture label produced for one frame.
///
/// `GestureA` is thumb and pinky extended with index, middle and ring
/// folded; `GestureB` is index and middle extended with thumb, ring and
/// pinky folded. Every other combination is `NoGesture`.
#[derive(Clone, Copy, PartialEq, Eq, Structural, Debug)]
pub enum GestureType {
    NoGesture,
    GestureA,
    GestureB,
}

/// The external string label of each gesture variant.
pub open spec fn spec_gesture_label(g: GestureType) -> Seq<char> {
    match g {
        GestureType::NoGesture => "none"@,
        GestureType::GestureA => "gesture_a"@,
        GestureType::GestureB => "gesture_b"@,
    }
}

impl GestureType {
    /// The external string label of this gesture.
    pub fn as_str(&self) -> (r: &'static str)
        ensures
            r@ == spec_gesture_label(*self),
    {
        match self {
            GestureType::NoGesture => "none",
            GestureType::GestureA => "gesture_a",
            GestureType::GestureB => "gesture_b",
        }
    }
}

/// A non-thumb finger is extended iff its tip sits strictly more than
/// `FINGER_MARGIN` above its PIP joint (above means a smaller `y`).
pub open spec fn spec_finger_extended(lm: Seq<Landmark>, tip: int, pip: int) -> bool {
    lm[tip].y < lm[pip].y - FINGER_MARGIN
}

/// Squared Euclidean distance between two landmarks in the image plane.
pub open spec fn spec_sq_dist(a: Landmark, b: Landmark) -> int {
    (a.x - b.x) * (a.x - b.x) + (a.y - b.y) * (a.y - b.y)
}

/// The thumb moves laterally, so it gets a distance test instead of the
/// vertical one: it is extended iff its tip (landmark 4) is more than 1.1
/// times as far from the thumb MCP (landmark 2) as the IP joint (landmark 3)
/// is. Stated over squared distances: d_tip > 1.1 * d_ip on nonnegative
/// distances is exactly 100 * d_tip^2 > 121 * d_ip^2.
pub open spec fn spec_thumb_extended(lm: Seq<Landmark>) -> bool {
    100 * spec_sq_dist(lm[4], lm[2]) > 121 * spec_sq_dist(lm[3], lm[2])
}

/// The label of a frame that is known to carry at least `FRAME_LEN`
/// landmarks: exactly one of the two accepted extension patterns, or
/// `NoGesture` for every other pattern.
pub open spec fn spec_classify(lm: Seq<Landmark>) -> GestureType {
    let thumb = spec_thumb_extended(lm);
    let index = spec_finger_extended(lm, 8, 6);
    let middle = spec_finger_extended(lm, 12, 10);
    let ring = spec_finger_extended(lm, 16, 14);
    let pinky = spec_finger_extended(lm, 20, 18);
    if thumb && pinky && !index && !middle && !ring {
        GestureType::GestureA
    } else if index && middle && !thumb && !ring && !pinky {
        GestureType::GestureB
    } else {
        GestureType::NoGesture
    }
}

/// The label of an arbitrary frame: a frame with fewer than `FRAME_LEN`
/// landmarks is not a fault but classifies as `NoGesture`.
pub open spec fn spec_classify_frame(lm: Seq<Landmark>) -> GestureType {
    if lm.len() < FRAME_LEN {
        GestureType::NoGesture
    } else {
        spec_classify(lm)
    }
}

proof fn lemma_sq_nonneg_bounded(v: int)
    requires
        -0x1_0000_0000 <= v <= 0x1_0000_0000,
    ensures
        0 <= v * v <= 0x1_0000_0000_0000_0000,
{
    assert(0 <= v * v <= 0x1_0000_0000_0000_0000) by (nonlinear_arith)
        requires
            -0x1_0000_0000 <= v <= 0x1_0000_0000,
    ;
}

/// Extension test for index, middle, ring and pinky, by tip and PIP index.
pub fn is_finger_extended(lm: &Vec<Landmark>, tip_idx: usize, pip_idx: usize) -> (r: bool)
    requires
        tip_idx < lm@.len(),
        pip_idx < lm@.len(),
    ensures
        r == spec_finger_extended(lm@, tip_idx as int, pip_idx as int),
{
    let tip = lm[tip_idx];
    let pip = lm[pip_idx];
    (tip.y as i64) < (pip.y as i64) - (FINGER_MARGIN as i64)
}

/// Extension test for the thumb, by the squared-distance ratio rule.
pub fn is_thumb_extended(lm: &Vec<Landmark>) -> (r: bool)
    requires
        lm@.len() >= 5,
    ensures
        r == spec_thumb_extended(lm@),
{
    let tip = lm[4];
    let ip = lm[3];
    let mcp = lm[2];
    let tip_dx: i64 = tip.x as i64 - mcp.x as i64;
    let tip_dy: i64 = tip.y as i64 - mcp.y as i64;
    let ip_dx: i64 = ip.x as i64 - mcp.x as i64;
    let ip_dy: i64 = ip.y as i64 - mcp.y as i64;
    proof {
        lemma_sq_nonneg_bounded(tip_dx as int);
        lemma_sq_nonneg_bounded(tip_dy as int);
        lemma_sq_nonneg_bounded(ip_dx as int);
        lemma_sq_nonneg_bounded(ip_dy as int);
    }
    let d_tip: i128 = (tip_dx as i128) * (tip_dx as i128) + (tip_dy as i128) * (tip_dy as i128);
    let d_ip: i128 = (ip_dx as i128) * (ip_dx as i128) + (ip_dy as i128) * (ip_dy as i128);
    100 * d_tip > 121 * d_ip
}

/// Label a frame that carries a full set of landmarks.
pub fn detect_gesture(lm: &Vec<Landmark>) -> (g: GestureType)
    requires
        lm@.len() >= FRAME_LEN,
    ensures
        g == spec_classify(lm@),
{
    let thumb_extended = is_thumb_extended(lm);
    let index_extended = is_finger_extended(lm, 8, 6);
    let middle_extended = is_finger_extended(lm, 12, 10);
    let ring_extended = is_finger_extended(lm, 16, 14);
    let pinky_extended = is_finger_extended(lm, 20, 18);

    if thumb_extended && pinky_extended && !index_extended && !middle_extended && !ring_extended {
        return GestureType::GestureA;
    }
    if index_extended && middle_extended && !thumb_extended && !ring_extended && !pinky_extended {
        return GestureType::GestureB;
    }
    GestureType::NoGesture
}

/// Label an arbitrary frame; a short frame degrades to `NoGesture`.
pub fn classify(lm: &Vec<Landmark>) -> (g: GestureType)
    ensures
        g == spec_classify_frame(lm@),
{
    if lm.len() < FRAME_LEN {
        GestureType::NoGesture
    } else {
        detect_gesture(lm)
    }
}

} // verus!
