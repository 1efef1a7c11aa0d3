//! The decision logic of an interactive move grab in a tiling compositor: a drag
//! on a window is recognised, once, as a window move or as a scroll of the view,
//! and the layout engine's begin/update/end transactions are kept balanced.
//!
//! `grab` holds the state machine, `geometry` the fixed-point pointer plane, and
//! `laws` what holds of every run of the grab.

pub mod geometry;
pub mod grab;
pub mod laws;
