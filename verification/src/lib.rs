//! Fan control for a single CPU temperature sensor and a single PWM output:
//! a piecewise-linear temperature-to-duty curve, the damping state that keeps
//! the fan from oscillating or dropping abruptly, and the decisions of the
//! sampling loop around them.

pub mod curve;
pub mod daemon;
pub mod damping;
pub mod sampling;
