use duo_daemon::backlight::KeyboardBacklightState;
use duo_daemon::bus::EventBus;
use duo_daemon::commands::{apply_command, parse_command, Command};
use duo_daemon::config::{
    is_valid_hex_id, key_press_action, product_id_for_board, Config, KeyAction, KeyFunction,
};
use duo_daemon::events::{Event, KeyPressEvent};
use duo_daemon::reports::{
    backlight_report, fn_keys_enable_report, mic_mute_report, parse_hex_string,
};
use duo_daemon::state::KeyboardStateManager;

#[test]
fn parse_command_recognizes_whole_vocabulary() {
    assert_eq!(parse_command("suspend_start"), Some(Command::SuspendStart));
    assert_eq!(parse_command("suspend_end"), Some(Command::SuspendEnd));
    assert_eq!(parse_command("mic_mute_led_toggle"), Some(Command::MicMuteLedToggle));
    assert_eq!(parse_command("mic_mute_led_on"), Some(Command::MicMuteLedOn));
    assert_eq!(parse_command("mic_mute_led_off"), Some(Command::MicMuteLedOff));
    assert_eq!(parse_command("backlight_toggle"), Some(Command::BacklightToggle));
    assert_eq!(parse_command("backlight_off"), Some(Command::BacklightOff));
    assert_eq!(parse_command("backlight_low"), Some(Command::BacklightLow));
    assert_eq!(parse_command("backlight_medium"), Some(Command::BacklightMedium));
    assert_eq!(parse_command("backlight_high"), Some(Command::BacklightHigh));
    assert_eq!(parse_command("secondary_display_toggle"), Some(Command::SecondaryDisplayToggle));
    assert_eq!(parse_command("secondary_display_on"), Some(Command::SecondaryDisplayOn));
    assert_eq!(parse_command("secondary_display_off"), Some(Command::SecondaryDisplayOff));
}

#[test]
fn parse_command_ignores_surrounding_whitespace() {
    assert_eq!(parse_command("suspend_start\n"), Some(Command::SuspendStart));
    assert_eq!(parse_command("  backlight_high \r\n"), Some(Command::BacklightHigh));
}

#[test]
fn parse_command_rejects_unknown_lines() {
    assert_eq!(parse_command(""), None);
    assert_eq!(parse_command("\n"), None);
    assert_eq!(parse_command("backlight"), None);
    assert_eq!(parse_command("suspend_startx"), None);
    assert_eq!(parse_command("BACKLIGHT_TOGGLE"), None);
    assert_eq!(parse_command("backlight toggle"), None);
}

#[test]
fn apply_command_drives_store() {
    let bus = EventBus::new();
    let mut rx = bus.receiver();
    let mut manager = KeyboardStateManager::new(false, bus.sender());

    apply_command(&mut manager, Command::BacklightHigh);
    assert_eq!(manager.get_keyboard_backlight(), KeyboardBacklightState::High);
    assert_eq!(rx.try_recv().unwrap(), Event::Backlight(KeyboardBacklightState::High));

    apply_command(&mut manager, Command::MicMuteLedOn);
    assert!(manager.get_mic_mute_led());
    assert_eq!(rx.try_recv().unwrap(), Event::MicMuteLed(true));

    apply_command(&mut manager, Command::SecondaryDisplayOff);
    assert!(!manager.is_secondary_display_enabled());
    assert_eq!(rx.try_recv().unwrap(), Event::SecondaryDisplay(false));

    apply_command(&mut manager, Command::BacklightToggle);
    assert_eq!(manager.get_keyboard_backlight(), KeyboardBacklightState::Off);
    assert_eq!(rx.try_recv().unwrap(), Event::Backlight(KeyboardBacklightState::Off));
}

#[test]
fn suspend_commands_shadow_and_restore() {
    let bus = EventBus::new();
    let mut rx = bus.receiver();
    let mut manager = KeyboardStateManager::new(false, bus.sender());
    apply_command(&mut manager, Command::BacklightMedium);
    assert_eq!(rx.try_recv().unwrap(), Event::Backlight(KeyboardBacklightState::Medium));

    apply_command(&mut manager, Command::SuspendStart);
    assert!(manager.is_suspended());
    assert_eq!(manager.get_keyboard_backlight(), KeyboardBacklightState::Off);
    assert_eq!(rx.try_recv().unwrap(), Event::Backlight(KeyboardBacklightState::Off));
    assert!(rx.try_recv().is_err()); // mic LED was already off: no event for it

    apply_command(&mut manager, Command::SuspendEnd);
    assert!(!manager.is_suspended());
    assert_eq!(manager.get_keyboard_backlight(), KeyboardBacklightState::Medium);
    // suspend-end always republishes both effective values
    assert_eq!(rx.try_recv().unwrap(), Event::MicMuteLed(false));
    assert_eq!(rx.try_recv().unwrap(), Event::Backlight(KeyboardBacklightState::Medium));
    assert!(rx.try_recv().is_err());
}

#[test]
fn parse_hex_string_decodes_report_payloads() {
    assert_eq!(
        parse_hex_string("5abac5c4020000000000000000000000"),
        vec![0x5a, 0xba, 0xc5, 0xc4, 2, 0, 0, 0, 0, 0, 0, 0, 0, 0, 0, 0]
    );
    assert_eq!(parse_hex_string(""), Vec::<u8>::new());
    assert_eq!(parse_hex_string("0b05"), vec![0x0b, 0x05]);
    assert_eq!(parse_hex_string("FFff"), vec![0xff, 0xff]);
}

#[test]
fn reports_match_their_hex_payloads() {
    assert_eq!(
        backlight_report(KeyboardBacklightState::Off),
        parse_hex_string("5abac5c4000000000000000000000000")
    );
    assert_eq!(
        backlight_report(KeyboardBacklightState::Low),
        parse_hex_string("5abac5c4010000000000000000000000")
    );
    assert_eq!(
        backlight_report(KeyboardBacklightState::Medium),
        parse_hex_string("5abac5c4020000000000000000000000")
    );
    assert_eq!(
        backlight_report(KeyboardBacklightState::High),
        parse_hex_string("5abac5c4030000000000000000000000")
    );
    assert_eq!(mic_mute_report(true), parse_hex_string("5ad07c01000000000000000000000000"));
    assert_eq!(mic_mute_report(false), parse_hex_string("5ad07c00000000000000000000000000"));
    assert_eq!(fn_keys_enable_report(), parse_hex_string("5ad04e00000000000000000000000000"));
}

#[test]
fn hex_ids_parse_to_usb_ids() {
    let config = Config::default_config(String::from("1b2c"));
    assert!(is_valid_hex_id(&config.usb_vendor_id));
    assert!(is_valid_hex_id(&config.usb_product_id));
    assert_eq!(config.vendor_id(), 0x0b05);
    assert_eq!(config.product_id(), 0x1b2c);
}

#[test]
fn invalid_hex_ids_are_rejected() {
    assert!(!is_valid_hex_id(""));
    assert!(!is_valid_hex_id("0b055"));
    assert!(!is_valid_hex_id("0x05"));
    assert!(!is_valid_hex_id("1b2g"));
    assert!(is_valid_hex_id("F"));
}

#[test]
fn product_id_depends_on_board() {
    assert_eq!(product_id_for_board("UX8406CA"), "1bf2");
    assert_eq!(product_id_for_board("UX8406CA\n"), "1bf2");
    assert_eq!(product_id_for_board("UX8406MA"), "1b2c");
    assert_eq!(product_id_for_board("SOMETHING"), "1b2c");
    assert_eq!(product_id_for_board(""), "1b2c");
}

#[test]
fn default_config_matches_documented_defaults() {
    let config = Config::default_config(String::from("1b2c"));
    assert_eq!(config.usb_vendor_id, "0b05");
    assert_eq!(config.keyboard_backlight_key, KeyFunction::KeyboardBacklight(true));
    assert_eq!(config.brightness_down_key, KeyFunction::KeyBind(vec![224]));
    assert_eq!(config.brightness_up_key, KeyFunction::KeyBind(vec![225]));
    assert_eq!(config.swap_up_down_display_key, KeyFunction::NoOp(true));
    assert_eq!(config.microphone_mute_key, KeyFunction::KeyBind(vec![248]));
    assert_eq!(config.emoji_picker_key, KeyFunction::KeyBind(vec![29, 52]));
    assert_eq!(config.myasus_key, KeyFunction::NoOp(true));
    assert_eq!(
        config.toggle_secondary_display_key,
        KeyFunction::ToggleSecondaryDisplay(true)
    );
    assert_eq!(config.secondary_display_status_path, "/sys/class/drm/card1-eDP-2/status");
    assert_eq!(config.pipe_path, "/tmp/zenbook-duo-daemon.pipe");
    assert_eq!(config.idle_timeout_seconds, 300);
}

#[test]
fn key_press_actions_follow_config() {
    let config = Config::default_config(String::from("1b2c"));
    assert_eq!(
        key_press_action(&config, KeyPressEvent::AllKeysReleased),
        KeyAction::ReleaseAll
    );
    assert_eq!(
        key_press_action(&config, KeyPressEvent::KeyboardBacklightKeyPressed),
        KeyAction::ToggleBacklight
    );
    assert_eq!(
        key_press_action(&config, KeyPressEvent::BrightnessDownKeyPressed),
        KeyAction::PressKeys(vec![224])
    );
    assert_eq!(
        key_press_action(&config, KeyPressEvent::EmojiPickerKeyPressed),
        KeyAction::PressKeys(vec![29, 52])
    );
    assert_eq!(key_press_action(&config, KeyPressEvent::MyAsusKeyPressed), KeyAction::Nothing);
    assert_eq!(
        key_press_action(&config, KeyPressEvent::ToggleSecondaryDisplayKeyPressed),
        KeyAction::ToggleDisplay
    );
}

#[test]
fn key_function_execute_decides_action() {
    assert_eq!(KeyFunction::KeyboardBacklight(false).execute(), KeyAction::Nothing);
    assert_eq!(KeyFunction::ToggleSecondaryDisplay(false).execute(), KeyAction::Nothing);
    assert_eq!(KeyFunction::NoOp(true).execute(), KeyAction::Nothing);
    assert_eq!(
        KeyFunction::Command(String::from("echo hi")).execute(),
        KeyAction::RunCommand(String::from("echo hi"))
    );
    assert_eq!(KeyFunction::KeyBind(vec![1, 2, 3]).execute(), KeyAction::PressKeys(vec![1, 2, 3]));
}
