//! The keyboard backlight intensity and its cyclic stepping order.

use vstd::prelude::*;

verus! {

/// Desired intensity of the keyboard backlight. The toggle key cycles
/// through the levels in the order Off -> Low -> Medium -> High -> Off.
#[derive(Clone, Copy, Debug, PartialEq, Eq, Structural)]
pub enum KeyboardBacklightState {
    Off,
    Low,
    Medium,
    High,
}

impl KeyboardBacklightState {
    /// The level that follows `self` in the cyclic order.
    pub open spec fn spec_next(self) -> KeyboardBacklightState {
        match self {
            KeyboardBacklightState::Off => KeyboardBacklightState::Low,
            KeyboardBacklightState::Low => KeyboardBacklightState::Medium,
            KeyboardBacklightState::Medium => KeyboardBacklightState::High,
            KeyboardBacklightState::High => KeyboardBacklightState::Off,
        }
    }

    /// Steps to the next level, wrapping from High back to Off.
    pub fn next(&self) -> (r: KeyboardBacklightState)
        ensures
            r == self.spec_next(),
    {
        match self {
            KeyboardBacklightState::Off => KeyboardBacklightState::Low,
            KeyboardBacklightState::Low => KeyboardBacklightState::Medium,
            KeyboardBacklightState::Medium => KeyboardBacklightState::High,
            KeyboardBacklightState::High => KeyboardBacklightState::Off,
        }
    }
}

/// Law: the stepping order is cyclic with period four, and one step from
/// `Off` yields `Low`.
pub proof fn lemma_backlight_cycle(level: KeyboardBacklightState)
    ensures
        level.spec_next().spec_next().spec_next().spec_next() == level,
        KeyboardBacklightState::Off.spec_next() == KeyboardBacklightState::Low,
{
}

} // verus!
