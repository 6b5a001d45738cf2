//! Hand-gesture classification and a counting gate over a stream of frames.
//!
//! The classifier maps one frame of 21 tracked hand landmarks to a gesture
//! label using finger-extension geometry; the session consumes one label per
//! frame, debounces it, and counts gesture occurrences toward a target.

pub mod classifier;
pub mod gate;
pub mod laws;
