//! An analog RPM gauge: a clamped linear integrator driven by a held/released
//! key, and the geometry of the dial it is drawn on.
//!
//! All quantities are integers. RPM values are plain `u32`, elapsed time is
//! milliseconds, and angles on the dial are kept in exact units of
//! pi / (4 * max_value) radians, so that the start of the sweep (3*pi/4) is
//! `3 * max_value` units and its end (9*pi/4) is `9 * max_value` units.
//! Projecting those units onto screen coordinates is left to the caller.

pub mod dial;
pub mod gauge;
