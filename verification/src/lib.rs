//! Verified control logic for a two-servo circular sweep with an indicator
//! lamp.
//!
//! Angles are carried in micro-degrees (millionths of a degree) so that the
//! whole control computation is exact integer arithmetic. The hardware side
//! (PWM channels, GPIO pins, trigonometry in floating point, sleeping) lives
//! outside this crate; it feeds plain values in and carries plain values out.

pub mod angle;
pub mod led;
pub mod servo;
pub mod sweep;
