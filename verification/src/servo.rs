//! The servo actuator's control state.
//!
//! A motor owns one PWM channel for its whole life; its only mutable state is
//! the last pulse width it commanded and whether its output is still enabled.
//! This type holds that state and makes every decision: which pulse width a
//! construction or an angle command writes. The owner performs the matching
//! hardware write with the value this type hands out, and the channel itself
//! lives with the owner, outside this crate.

use vstd::prelude::*;
use crate::angle::{Angle, pulse_width_ns, pulse_width_ns_spec};

verus! {

/// One servo actuator: last commanded pulse width, output enabled or not.
pub struct Motor {
    last_pulse_ns: u64,
    enabled: bool,
}

impl Motor {
    /// The pulse width, in nanoseconds, last commanded to the channel.
    pub closed spec fn spec_last_pulse_ns(self) -> u64 {
        self.last_pulse_ns
    }

    /// Whether the channel's output is still enabled.
    pub closed spec fn spec_enabled(self) -> bool {
        self.enabled
    }

    /// A freshly constructed motor: output enabled, commanded to the neutral
    /// 0-degree pulse (0.5 ms). The owner acquires the channel with exactly
    /// this initial pulse width, a 20 ms period and normal polarity.
    pub fn new() -> (m: Motor)
        ensures
            m.spec_enabled(),
            m.spec_last_pulse_ns() as int == pulse_width_ns_spec(0),
    {
        let p: u64 = pulse_width_ns(Angle { micro_deg: 0 });
        Motor { last_pulse_ns: p, enabled: true }
    }

    /// Command an angle: the returned pulse width is the converter's value
    /// for it, and becomes the motor's last commanded pulse width. The owner
    /// writes exactly this duration to the channel; a failed write is fatal.
    pub fn set_angle(&mut self, angle: Angle) -> (p: u64)
        requires
            old(self).spec_enabled(),
        ensures
            p as int == pulse_width_ns_spec(angle.as_micro()),
            final(self).spec_last_pulse_ns() == p,
            final(self).spec_enabled(),
    {
        let p: u64 = pulse_width_ns(angle);
        self.last_pulse_ns = p;
        p
    }

    /// Shut the motor down: its output is disabled and stays so; no further
    /// angle can be commanded. The owner disables the channel in the same
    /// breath.
    pub fn turn_off(&mut self)
        ensures
            !final(self).spec_enabled(),
            final(self).spec_last_pulse_ns() == old(self).spec_last_pulse_ns(),
    {
        self.enabled = false;
    }

    /// The last commanded pulse width, in nanoseconds.
    pub fn last_pulse_ns(&self) -> (r: u64)
        ensures
            r == self.spec_last_pulse_ns(),
    {
        self.last_pulse_ns
    }

    /// Whether the output is still enabled.
    pub fn is_enabled(&self) -> (r: bool)
        ensures
            r == self.spec_enabled(),
    {
        self.enabled
    }
}

} // verus!
