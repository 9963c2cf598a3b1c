//! The closed sets of events that flow between the daemon's components.

use vstd::prelude::*;
use crate::backlight::KeyboardBacklightState;

verus! {

/// A function-key observation decoded from a physical keyboard. A single raw
/// value identifies at most one logical function key at a time; the neutral
/// value and every unrecognized value decode to `AllKeysReleased`, so stale
/// synthetic key state is always released rather than left behind.
#[derive(Clone, Copy, Debug, PartialEq, Eq, Structural)]
pub enum KeyPressEvent {
    KeyboardBacklightKeyPressed,
    BrightnessDownKeyPressed,
    BrightnessUpKeyPressed,
    SwapUpDownDisplayKeyPressed,
    MicrophoneMuteKeyPressed,
    EmojiPickerKeyPressed,
    MyAsusKeyPressed,
    ToggleSecondaryDisplayKeyPressed,
    AllKeysReleased,
}

/// Everything that can change device state, broadcast on the event bus.
/// Values are immutable, cheaply copyable and fan-out broadcast; the payload
/// of `MicMuteLed`, `Backlight` and `SecondaryDisplay` is always the new
/// *effective* value as republished by the state store.
#[derive(Clone, Copy, Debug, PartialEq, Eq, Structural)]
pub enum Event {
    LaptopSuspend,
    LaptopResume,
    MicMuteLed(bool),
    MicMuteLedToggle,
    Backlight(KeyboardBacklightState),
    BacklightToggle,
    SecondaryDisplay(bool),
    SecondaryDisplayToggle,
    USBKeyboardAttached,
    USBKeyboardDetached,
}

} // verus!
