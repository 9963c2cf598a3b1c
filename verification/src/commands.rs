//! The command dispatcher: maps operator lines onto state-store calls.
//!
//! Commands arrive as newline-delimited ASCII text on an out-of-band
//! channel. Each recognized line maps to exactly one state-store mutation;
//! unrecognized lines are ignored and never fatal.

use vstd::prelude::*;
use crate::backlight::KeyboardBacklightState;
use crate::events::Event;
use crate::state::{change_events, resync_events, DeviceState, KeyboardStateManager};
use crate::text::{str_eq, trim_ascii, trim_seq};

verus! {

/// The recognized operator command vocabulary.
#[derive(Clone, Copy, Debug, PartialEq, Eq, Structural)]
pub enum Command {
    SuspendStart,
    SuspendEnd,
    MicMuteLedToggle,
    MicMuteLedOn,
    MicMuteLedOff,
    BacklightToggle,
    BacklightOff,
    BacklightLow,
    BacklightMedium,
    BacklightHigh,
    SecondaryDisplayToggle,
    SecondaryDisplayOn,
    SecondaryDisplayOff,
}

/// The command a received line spells once surrounding whitespace is
/// ignored, or `None` for an unrecognized line.
pub open spec fn spec_parse_command(line: Seq<char>) -> Option<Command> {
    let t = trim_seq(line);
    if t == "suspend_start"@ {
        Some(Command::SuspendStart)
    } else if t == "suspend_end"@ {
        Some(Command::SuspendEnd)
    } else if t == "mic_mute_led_toggle"@ {
        Some(Command::MicMuteLedToggle)
    } else if t == "mic_mute_led_on"@ {
        Some(Command::MicMuteLedOn)
    } else if t == "mic_mute_led_off"@ {
        Some(Command::MicMuteLedOff)
    } else if t == "backlight_toggle"@ {
        Some(Command::BacklightToggle)
    } else if t == "backlight_off"@ {
        Some(Command::BacklightOff)
    } else if t == "backlight_low"@ {
        Some(Command::BacklightLow)
    } else if t == "backlight_medium"@ {
        Some(Command::BacklightMedium)
    } else if t == "backlight_high"@ {
        Some(Command::BacklightHigh)
    } else if t == "secondary_display_toggle"@ {
        Some(Command::SecondaryDisplayToggle)
    } else if t == "secondary_display_on"@ {
        Some(Command::SecondaryDisplayOn)
    } else if t == "secondary_display_off"@ {
        Some(Command::SecondaryDisplayOff)
    } else {
        None
    }
}

/// Parses one line received on the command channel. Surrounding ASCII
/// whitespace (the delivering newline included) is ignored; an unrecognized
/// line yields `None` and the caller logs and drops it.
pub fn parse_command(line: &str) -> (r: Option<Command>)
    ensures
        r == spec_parse_command(line@),
{
    let t = trim_ascii(line);
    if str_eq(t, "suspend_start") {
        Some(Command::SuspendStart)
    } else if str_eq(t, "suspend_end") {
        Some(Command::SuspendEnd)
    } else if str_eq(t, "mic_mute_led_toggle") {
        Some(Command::MicMuteLedToggle)
    } else if str_eq(t, "mic_mute_led_on") {
        Some(Command::MicMuteLedOn)
    } else if str_eq(t, "mic_mute_led_off") {
        Some(Command::MicMuteLedOff)
    } else if str_eq(t, "backlight_toggle") {
        Some(Command::BacklightToggle)
    } else if str_eq(t, "backlight_off") {
        Some(Command::BacklightOff)
    } else if str_eq(t, "backlight_low") {
        Some(Command::BacklightLow)
    } else if str_eq(t, "backlight_medium") {
        Some(Command::BacklightMedium)
    } else if str_eq(t, "backlight_high") {
        Some(Command::BacklightHigh)
    } else if str_eq(t, "secondary_display_toggle") {
        Some(Command::SecondaryDisplayToggle)
    } else if str_eq(t, "secondary_display_on") {
        Some(Command::SecondaryDisplayOn)
    } else if str_eq(t, "secondary_display_off") {
        Some(Command::SecondaryDisplayOff)
    } else {
        None
    }
}

/// The state a command leaves the store in.
pub open spec fn spec_apply_command(s: DeviceState, command: Command) -> DeviceState {
    match command {
        Command::SuspendStart => s.with_suspended(true),
        Command::SuspendEnd => s.with_suspended(false),
        Command::MicMuteLedToggle => s.with_mic_mute(!s.mic_mute_led),
        Command::MicMuteLedOn => s.with_mic_mute(true),
        Command::MicMuteLedOff => s.with_mic_mute(false),
        Command::BacklightToggle => s.with_backlight(s.backlight.spec_next()),
        Command::BacklightOff => s.with_backlight(KeyboardBacklightState::Off),
        Command::BacklightLow => s.with_backlight(KeyboardBacklightState::Low),
        Command::BacklightMedium => s.with_backlight(KeyboardBacklightState::Medium),
        Command::BacklightHigh => s.with_backlight(KeyboardBacklightState::High),
        Command::SecondaryDisplayToggle => s.with_display(!s.is_secondary_display_enabled),
        Command::SecondaryDisplayOn => s.with_display(true),
        Command::SecondaryDisplayOff => s.with_display(false),
    }
}

/// The events a command publishes: ending suspend always republishes both
/// effective light values; every other command publishes exactly what it
/// changed.
pub open spec fn spec_command_events(s: DeviceState, command: Command) -> Seq<Event> {
    if command == Command::SuspendEnd {
        resync_events(spec_apply_command(s, command))
    } else {
        change_events(s, spec_apply_command(s, command))
    }
}

/// Applies one recognized command to the state store: exactly one
/// state-store call per command.
pub fn apply_command(manager: &mut KeyboardStateManager, command: Command)
    ensures
        final(manager)@ == spec_apply_command(old(manager)@, command),
        final(manager).published() == old(manager).published() + spec_command_events(
            old(manager)@,
            command,
        ),
{
    match command {
        Command::SuspendStart => manager.set_suspended(true),
        Command::SuspendEnd => manager.set_suspended(false),
        Command::MicMuteLedToggle => manager.toggle_mic_mute_led(),
        Command::MicMuteLedOn => manager.set_mic_mute_led(true),
        Command::MicMuteLedOff => manager.set_mic_mute_led(false),
        Command::BacklightToggle => manager.toggle_keyboard_backlight(),
        Command::BacklightOff => manager.set_keyboard_backlight(KeyboardBacklightState::Off),
        Command::BacklightLow => manager.set_keyboard_backlight(KeyboardBacklightState::Low),
        Command::BacklightMedium => manager.set_keyboard_backlight(KeyboardBacklightState::Medium),
        Command::BacklightHigh => manager.set_keyboard_backlight(KeyboardBacklightState::High),
        Command::SecondaryDisplayToggle => manager.toggle_secondary_display(),
        Command::SecondaryDisplayOn => manager.set_secondary_display(true),
        Command::SecondaryDisplayOff => manager.set_secondary_display(false),
    }
}

} // verus!
