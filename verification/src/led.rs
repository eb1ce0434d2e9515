//! The indicator lamp's commanded level.
//!
//! The indicator owns one digital output pin; its state is binary. This type
//! tracks the commanded level, starting from the low baseline, and each
//! transition pins the whole resulting state, so repeating a call changes
//! nothing. The owner mirrors every transition with the matching digital
//! write (an infallible level set once the pin is acquired), and the pin
//! itself lives with the owner, outside this crate.

use vstd::prelude::*;

verus! {

/// One indicator lamp: is its pin commanded high?
#[derive(Clone, Copy, PartialEq, Eq, Structural, Debug)]
pub struct Led {
    high: bool,
}

/// The state a `turn_on` moves `pre` to: high, whatever `pre` was.
pub closed spec fn led_on_transition(pre: Led) -> Led {
    Led { high: true }
}

/// The state a `turn_off` moves `pre` to: low, whatever `pre` was.
pub closed spec fn led_off_transition(pre: Led) -> Led {
    Led { high: false }
}

impl Led {
    /// Whether the pin is commanded high.
    pub closed spec fn spec_is_high(self) -> bool {
        self.high
    }

    /// A fresh indicator, at the low baseline.
    pub fn new() -> (l: Led)
        ensures
            !l.spec_is_high(),
    {
        Led { high: false }
    }

    /// Command the pin high.
    pub fn turn_on(&mut self)
        ensures
            *final(self) == led_on_transition(*old(self)),
            final(self).spec_is_high(),
    {
        self.high = true;
    }

    /// Command the pin low.
    pub fn turn_off(&mut self)
        ensures
            *final(self) == led_off_transition(*old(self)),
            !final(self).spec_is_high(),
    {
        self.high = false;
    }

    /// Whether the pin is commanded high.
    pub fn is_high(&self) -> (r: bool)
        ensures
            r == self.spec_is_high(),
    {
        self.high
    }
}

/// `turn_on` followed by `turn_off` leaves the pin low, and `turn_on` alone
/// leaves it high, from any starting state.
pub proof fn lemma_led_on_then_off(pre: Led)
    ensures
        !led_off_transition(led_on_transition(pre)).spec_is_high(),
        led_on_transition(pre).spec_is_high(),
{
}

/// Repeating an identical call is idempotent: applying a transition to a
/// state it has already produced changes nothing observable.
pub proof fn lemma_led_transitions_idempotent(pre: Led)
    ensures
        led_on_transition(led_on_transition(pre)) == led_on_transition(pre),
        led_off_transition(led_off_transition(pre)) == led_off_transition(pre),
{
}

} // verus!
