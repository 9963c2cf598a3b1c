//! The daemon configuration and the mapping from key presses to actions.
//!
//! The configuration file itself is read and written outside the library;
//! this module holds the configured values as plain data, decides what each
//! decoded key press should do, and decodes the hex USB ids.

use vstd::prelude::*;
use crate::events::KeyPressEvent;
use crate::reports::{is_hex_digit, parse_hex_u16, spec_hex_value};
use crate::text::{str_eq, trim_ascii, trim_seq};

verus! {

/// The key code of the brightness-down key, as the input subsystem numbers
/// keys.
pub const KEY_CODE_BRIGHTNESS_DOWN: u16 = 224;

/// The key code of the brightness-up key.
pub const KEY_CODE_BRIGHTNESS_UP: u16 = 225;

/// The key code of the microphone-mute key.
pub const KEY_CODE_MIC_MUTE: u16 = 248;

/// The key code of the left control key.
pub const KEY_CODE_LEFT_CTRL: u16 = 29;

/// The key code of the dot key.
pub const KEY_CODE_DOT: u16 = 52;

/// What a configured physical key does when pressed.
#[derive(Clone, Debug, PartialEq, Eq)]
pub enum KeyFunction {
    /// Cycle the keyboard backlight (when true; false does nothing).
    KeyboardBacklight(bool),
    /// Toggle the secondary display (when true; false does nothing).
    ToggleSecondaryDisplay(bool),
    /// Press this combination of key codes on the synthetic output keyboard.
    KeyBind(Vec<u16>),
    /// Run this shell command.
    Command(String),
    /// Do nothing.
    NoOp(bool),
}

/// What the caller must do for one key press, as decided from the
/// configuration. The caller performs the action: it presses keys on the
/// output device, runs the command, or mutates the state store.
#[derive(Clone, Debug, PartialEq, Eq)]
pub enum KeyAction {
    /// Release whatever is held, then press these key codes.
    PressKeys(Vec<u16>),
    /// Run this shell command.
    RunCommand(String),
    /// Step the state store's backlight level.
    ToggleBacklight,
    /// Flip the state store's secondary-display request.
    ToggleDisplay,
    /// Release every synthetically held key.
    ReleaseAll,
    /// Do nothing.
    Nothing,
}

/// How an action relates to the function configured for a pressed key.
pub open spec fn action_matches(f: KeyFunction, a: KeyAction) -> bool {
    match f {
        KeyFunction::KeyboardBacklight(enabled) => if enabled {
            a == KeyAction::ToggleBacklight
        } else {
            a == KeyAction::Nothing
        },
        KeyFunction::ToggleSecondaryDisplay(enabled) => if enabled {
            a == KeyAction::ToggleDisplay
        } else {
            a == KeyAction::Nothing
        },
        KeyFunction::KeyBind(keys) => a matches KeyAction::PressKeys(k) && k@ == keys@,
        KeyFunction::Command(cmd) => a matches KeyAction::RunCommand(c) && c@ == cmd@,
        KeyFunction::NoOp(_) => a == KeyAction::Nothing,
    }
}

fn clone_keys(keys: &Vec<u16>) -> (r: Vec<u16>)
    ensures
        r@ == keys@,
{
    let mut r: Vec<u16> = Vec::new();
    let mut i: usize = 0;
    while i < keys.len()
        invariant
            i <= keys.len(),
            r@ == keys@.take(i as int),
        decreases keys.len() - i,
    {
        r.push(keys[i]);
        proof {
            assert(keys@.take(i + 1 as int) =~= keys@.take(i as int).push(keys@[i as int]));
        }
        i += 1;
    }
    proof {
        assert(keys@.take(keys@.len() as int) =~= keys@);
    }
    r
}

impl KeyFunction {
    /// Decides what a press of a key configured with this function does.
    pub fn execute(&self) -> (r: KeyAction)
        ensures
            action_matches(*self, r),
    {
        match self {
            KeyFunction::KeyboardBacklight(enabled) => {
                if *enabled {
                    KeyAction::ToggleBacklight
                } else {
                    KeyAction::Nothing
                }
            },
            KeyFunction::ToggleSecondaryDisplay(enabled) => {
                if *enabled {
                    KeyAction::ToggleDisplay
                } else {
                    KeyAction::Nothing
                }
            },
            KeyFunction::KeyBind(keys) => KeyAction::PressKeys(clone_keys(keys)),
            KeyFunction::Command(cmd) => KeyAction::RunCommand(cmd.clone()),
            KeyFunction::NoOp(_) => KeyAction::Nothing,
        }
    }
}

/// The daemon configuration, as plain values. Reading and writing the
/// configuration file happens outside the library.
#[derive(Clone, Debug)]
pub struct Config {
    /// The wired keyboard's USB vendor id, as a hex string.
    pub usb_vendor_id: String,
    /// The wired keyboard's USB product id, as a hex string.
    pub usb_product_id: String,
    pub keyboard_backlight_key: KeyFunction,
    pub brightness_down_key: KeyFunction,
    pub brightness_up_key: KeyFunction,
    pub swap_up_down_display_key: KeyFunction,
    pub microphone_mute_key: KeyFunction,
    pub emoji_picker_key: KeyFunction,
    pub myasus_key: KeyFunction,
    pub toggle_secondary_display_key: KeyFunction,
    /// The panel-status file written with "on"/"off" and read back.
    pub secondary_display_status_path: String,
    /// The brightness file mirrored from.
    pub primary_backlight_path: String,
    /// The brightness file mirrored to.
    pub secondary_backlight_path: String,
    /// The command channel's filesystem path.
    pub pipe_path: String,
    /// Idle timeout in seconds; zero disables idle detection.
    pub idle_timeout_seconds: u64,
}

/// A well-formed hex USB id: one to four hex digits.
pub open spec fn valid_hex_id(s: Seq<char>) -> bool {
    1 <= s.len() <= 4 && forall|i: int| 0 <= i < s.len() ==> is_hex_digit(#[trigger] s[i])
}

/// Whether a string is a well-formed hex USB id, so callers can check
/// before asking for the numeric value.
pub fn is_valid_hex_id(s: &str) -> (r: bool)
    ensures
        r == valid_hex_id(s@),
{
    let n = s.unicode_len();
    if n < 1 || n > 4 {
        return false;
    }
    let mut i: usize = 0;
    while i < n
        invariant
            i <= n,
            n == s@.len(),
            forall|j: int| 0 <= j < i ==> is_hex_digit(#[trigger] s@[j]),
        decreases n - i,
    {
        let c = s.get_char(i);
        let u = c as u32;
        let ok = (48 <= u && u <= 57) || (97 <= u && u <= 102) || (65 <= u && u <= 70);
        if !ok {
            return false;
        }
        i += 1;
    }
    true
}

impl Config {
    /// The numeric USB vendor id the configured hex string spells.
    pub fn vendor_id(&self) -> (v: u16)
        requires
            valid_hex_id(self.usb_vendor_id@),
        ensures
            v as int == spec_hex_value(self.usb_vendor_id@),
    {
        parse_hex_u16(self.usb_vendor_id.as_str())
    }

    /// The numeric USB product id the configured hex string spells.
    pub fn product_id(&self) -> (v: u16)
        requires
            valid_hex_id(self.usb_product_id@),
        ensures
            v as int == spec_hex_value(self.usb_product_id@),
    {
        parse_hex_u16(self.usb_product_id.as_str())
    }
}

/// The product id the wired keyboard uses on a given mainboard, decided
/// from the (whitespace-trimmed) board name: the 2025 board has its own id,
/// every other board falls back to the 2024 id.
pub open spec fn spec_product_id_for_board(board: Seq<char>) -> Seq<char> {
    if trim_seq(board) == "UX8406CA"@ {
        "1bf2"@
    } else {
        "1b2c"@
    }
}

/// Picks the default USB product id from the mainboard name, as read from
/// the firmware information file.
pub fn product_id_for_board(board_name: &str) -> (r: &'static str)
    ensures
        r@ == spec_product_id_for_board(board_name@),
{
    let t = trim_ascii(board_name);
    if str_eq(t, "UX8406CA") {
        "1bf2"
    } else {
        "1b2c"
    }
}

/// Whether `a` does for key press `key` what configuration `c` asks: the
/// neutral press releases everything, every other press performs its
/// configured function.
pub open spec fn key_action_ok(c: Config, key: KeyPressEvent, a: KeyAction) -> bool {
    match key {
        KeyPressEvent::AllKeysReleased => a == KeyAction::ReleaseAll,
        KeyPressEvent::KeyboardBacklightKeyPressed => action_matches(c.keyboard_backlight_key, a),
        KeyPressEvent::BrightnessDownKeyPressed => action_matches(c.brightness_down_key, a),
        KeyPressEvent::BrightnessUpKeyPressed => action_matches(c.brightness_up_key, a),
        KeyPressEvent::SwapUpDownDisplayKeyPressed => action_matches(c.swap_up_down_display_key, a),
        KeyPressEvent::MicrophoneMuteKeyPressed => action_matches(c.microphone_mute_key, a),
        KeyPressEvent::EmojiPickerKeyPressed => action_matches(c.emoji_picker_key, a),
        KeyPressEvent::MyAsusKeyPressed => action_matches(c.myasus_key, a),
        KeyPressEvent::ToggleSecondaryDisplayKeyPressed => action_matches(
            c.toggle_secondary_display_key,
            a,
        ),
    }
}

/// Decides what one decoded key press should do under this configuration.
pub fn key_press_action(config: &Config, key: KeyPressEvent) -> (r: KeyAction)
    ensures
        key_action_ok(*config, key, r),
{
    match key {
        KeyPressEvent::AllKeysReleased => KeyAction::ReleaseAll,
        KeyPressEvent::KeyboardBacklightKeyPressed => config.keyboard_backlight_key.execute(),
        KeyPressEvent::BrightnessDownKeyPressed => config.brightness_down_key.execute(),
        KeyPressEvent::BrightnessUpKeyPressed => config.brightness_up_key.execute(),
        KeyPressEvent::SwapUpDownDisplayKeyPressed => config.swap_up_down_display_key.execute(),
        KeyPressEvent::MicrophoneMuteKeyPressed => config.microphone_mute_key.execute(),
        KeyPressEvent::EmojiPickerKeyPressed => config.emoji_picker_key.execute(),
        KeyPressEvent::MyAsusKeyPressed => config.myasus_key.execute(),
        KeyPressEvent::ToggleSecondaryDisplayKeyPressed => config
            .toggle_secondary_display_key
            .execute(),
    }
}

impl Config {
    /// The built-in default configuration, with the product id already
    /// picked for the machine's mainboard.
    pub fn default_config(usb_product_id: String) -> (c: Config)
        ensures
            c.usb_vendor_id@ == "0b05"@,
            c.usb_product_id == usb_product_id,
            c.keyboard_backlight_key == KeyFunction::KeyboardBacklight(true),
            c.brightness_down_key matches KeyFunction::KeyBind(k) && k@ == seq![
                KEY_CODE_BRIGHTNESS_DOWN,
            ],
            c.brightness_up_key matches KeyFunction::KeyBind(k) && k@ == seq![
                KEY_CODE_BRIGHTNESS_UP,
            ],
            c.swap_up_down_display_key == KeyFunction::NoOp(true),
            c.microphone_mute_key matches KeyFunction::KeyBind(k) && k@ == seq![
                KEY_CODE_MIC_MUTE,
            ],
            c.emoji_picker_key matches KeyFunction::KeyBind(k) && k@ == seq![
                KEY_CODE_LEFT_CTRL,
                KEY_CODE_DOT,
            ],
            c.myasus_key == KeyFunction::NoOp(true),
            c.toggle_secondary_display_key == KeyFunction::ToggleSecondaryDisplay(true),
            c.secondary_display_status_path@ == "/sys/class/drm/card1-eDP-2/status"@,
            c.primary_backlight_path@ == "/sys/class/backlight/intel_backlight/brightness"@,
            c.secondary_backlight_path@
                == "/sys/class/backlight/card1-eDP-2-backlight/brightness"@,
            c.pipe_path@ == "/tmp/zenbook-duo-daemon.pipe"@,
            c.idle_timeout_seconds == 300,
    {
        let brightness_down: Vec<u16> = vec![KEY_CODE_BRIGHTNESS_DOWN];
        let brightness_up: Vec<u16> = vec![KEY_CODE_BRIGHTNESS_UP];
        let mic_mute: Vec<u16> = vec![KEY_CODE_MIC_MUTE];
        let emoji: Vec<u16> = vec![KEY_CODE_LEFT_CTRL, KEY_CODE_DOT];
        proof {
            assert(brightness_down@ =~= seq![KEY_CODE_BRIGHTNESS_DOWN]);
            assert(brightness_up@ =~= seq![KEY_CODE_BRIGHTNESS_UP]);
            assert(mic_mute@ =~= seq![KEY_CODE_MIC_MUTE]);
            assert(emoji@ =~= seq![KEY_CODE_LEFT_CTRL, KEY_CODE_DOT]);
        }
        Config {
            usb_vendor_id: "0b05".to_owned(),
            usb_product_id,
            keyboard_backlight_key: KeyFunction::KeyboardBacklight(true),
            brightness_down_key: KeyFunction::KeyBind(brightness_down),
            brightness_up_key: KeyFunction::KeyBind(brightness_up),
            swap_up_down_display_key: KeyFunction::NoOp(true),
            microphone_mute_key: KeyFunction::KeyBind(mic_mute),
            emoji_picker_key: KeyFunction::KeyBind(emoji),
            myasus_key: KeyFunction::NoOp(true),
            toggle_secondary_display_key: KeyFunction::ToggleSecondaryDisplay(true),
            secondary_display_status_path: "/sys/class/drm/card1-eDP-2/status".to_owned(),
            primary_backlight_path: "/sys/class/backlight/intel_backlight/brightness".to_owned(),
            secondary_backlight_path:
                "/sys/class/backlight/card1-eDP-2-backlight/brightness".to_owned(),
            pipe_path: "/tmp/zenbook-duo-daemon.pipe".to_owned(),
            idle_timeout_seconds: 300,
        }
    }
}

} // verus!
