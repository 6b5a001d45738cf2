use gesture_gate::classifier::{classify, detect_gesture, GestureType, Landmark};

fn lm(x: i32, y: i32) -> Landmark {
    Landmark { x, y, z: 0 }
}

/// All fingers folded; the thumb tip and IP joint sit equally far from
/// the thumb MCP.
fn frame_none() -> Vec<Landmark> {
    let mut f = vec![lm(0, 5000); 21];
    f[2] = lm(1000, 5000);
    f[3] = lm(2000, 5000);
    f[4] = lm(2000, 5000);
    f
}

fn frame_a() -> Vec<Landmark> {
    let mut f = frame_none();
    f[4] = lm(4000, 5000);
    f[20] = lm(0, 4000);
    f
}

fn frame_b() -> Vec<Landmark> {
    let mut f = frame_none();
    f[8] = lm(0, 4000);
    f[12] = lm(0, 4000);
    f
}

#[test]
fn classifies_gesture_a() {
    let g = classify(&frame_a());
    assert_eq!(g, GestureType::GestureA);
    assert_eq!(g.as_str(), "gesture_a");
}

#[test]
fn classifies_gesture_b() {
    let g = classify(&frame_b());
    assert_eq!(g, GestureType::GestureB);
    assert_eq!(g.as_str(), "gesture_b");
}

#[test]
fn all_folded_is_no_gesture() {
    let g = classify(&frame_none());
    assert_eq!(g, GestureType::NoGesture);
    assert_eq!(g.as_str(), "none");
}

#[test]
fn all_extended_is_no_gesture() {
    let mut f = frame_a();
    f[8] = lm(0, 4000);
    f[12] = lm(0, 4000);
    f[16] = lm(0, 4000);
    assert_eq!(classify(&f), GestureType::NoGesture);
}

#[test]
fn partial_overlap_is_no_gesture() {
    // Thumb and pinky extended, but the index too: not gesture A.
    let mut f = frame_a();
    f[8] = lm(0, 4000);
    assert_eq!(classify(&f), GestureType::NoGesture);

    // Index and middle extended, but the ring too: not gesture B.
    let mut f = frame_b();
    f[16] = lm(0, 4000);
    assert_eq!(classify(&f), GestureType::NoGesture);
}

#[test]
fn short_frame_is_no_gesture() {
    let f: Vec<Landmark> = vec![lm(0, 4000); 20];
    assert_eq!(classify(&f), GestureType::NoGesture);
}

#[test]
fn finger_at_exact_margin_is_not_extended() {
    // The index tip exactly 0.02 above its PIP: the strict comparison
    // treats it as folded, so this frame misses gesture B.
    let mut f = frame_b();
    f[8] = lm(0, 4800);
    assert_eq!(classify(&f), GestureType::NoGesture);

    // One unit above the margin counts as extended.
    f[8] = lm(0, 4799);
    assert_eq!(classify(&f), GestureType::GestureB);
}

#[test]
fn thumb_at_exact_ratio_is_not_extended() {
    // d_tip == 1.1 * d_ip exactly: the strict comparison treats the
    // thumb as folded, so this frame misses gesture A.
    let mut f = frame_a();
    f[2] = lm(0, 5000);
    f[3] = lm(1000, 5000);
    f[4] = lm(1100, 5000);
    assert_eq!(classify(&f), GestureType::NoGesture);

    // One unit farther and the thumb counts as extended.
    f[4] = lm(1101, 5000);
    assert_eq!(classify(&f), GestureType::GestureA);
}

#[test]
fn detect_matches_classify_on_full_frames() {
    for f in [frame_a(), frame_b(), frame_none()].iter() {
        assert_eq!(detect_gesture(f), classify(f));
    }
}
