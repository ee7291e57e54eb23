//! Core logic for an animated comparison of quantities that span many
//! orders of magnitude on a shared logarithmic scale.
//!
//! The verified core covers the fixed-timestep animation state machine,
//! the per-tick decisions of the viewport controller, the status-line
//! text, and duration formatting for whole second counts.  Floating-point
//! arithmetic on magnitudes, easing curves, persistence and the widget
//! tree live in the host application around this crate.

pub mod animation;
pub mod math;
pub mod text;
pub mod units;
pub mod viewport;
