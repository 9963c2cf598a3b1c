use duo_daemon::backlight::KeyboardBacklightState;
use duo_daemon::bus::EventBus;
use duo_daemon::config::{key_press_action, Config, KeyAction};
use duo_daemon::events::{Event, KeyPressEvent};
use duo_daemon::keys::{decode_key_code, parse_usb_report, KeyEventType, KeyWrite, VirtualKeyboard};
use duo_daemon::state::KeyboardStateManager;

#[test]
fn backlight_next_steps_once() {
    assert_eq!(KeyboardBacklightState::Off.next(), KeyboardBacklightState::Low);
    assert_eq!(KeyboardBacklightState::Low.next(), KeyboardBacklightState::Medium);
    assert_eq!(KeyboardBacklightState::Medium.next(), KeyboardBacklightState::High);
    assert_eq!(KeyboardBacklightState::High.next(), KeyboardBacklightState::Off);
}

#[test]
fn backlight_next_four_times_returns_to_start() {
    for level in [
        KeyboardBacklightState::Off,
        KeyboardBacklightState::Low,
        KeyboardBacklightState::Medium,
        KeyboardBacklightState::High,
    ] {
        assert_eq!(level.next().next().next().next(), level);
    }
}

#[test]
fn key_event_type_values() {
    assert_eq!(KeyEventType::Release.value(), 0);
    assert_eq!(KeyEventType::Press.value(), 1);
}

#[test]
fn decode_key_code_table() {
    assert_eq!(decode_key_code(0), KeyPressEvent::AllKeysReleased);
    assert_eq!(decode_key_code(199), KeyPressEvent::KeyboardBacklightKeyPressed);
    assert_eq!(decode_key_code(16), KeyPressEvent::BrightnessDownKeyPressed);
    assert_eq!(decode_key_code(32), KeyPressEvent::BrightnessUpKeyPressed);
    assert_eq!(decode_key_code(156), KeyPressEvent::SwapUpDownDisplayKeyPressed);
    assert_eq!(decode_key_code(124), KeyPressEvent::MicrophoneMuteKeyPressed);
    assert_eq!(decode_key_code(126), KeyPressEvent::EmojiPickerKeyPressed);
    assert_eq!(decode_key_code(134), KeyPressEvent::MyAsusKeyPressed);
    assert_eq!(decode_key_code(106), KeyPressEvent::ToggleSecondaryDisplayKeyPressed);
}

#[test]
fn decode_key_code_unrecognized_releases_all() {
    assert_eq!(decode_key_code(1), KeyPressEvent::AllKeysReleased);
    assert_eq!(decode_key_code(-1), KeyPressEvent::AllKeysReleased);
    assert_eq!(decode_key_code(200), KeyPressEvent::AllKeysReleased);
}

#[test]
fn parse_usb_report_table() {
    assert_eq!(parse_usb_report(&[90, 0, 0, 0, 0, 0]), KeyPressEvent::AllKeysReleased);
    assert_eq!(parse_usb_report(&[90, 199, 0, 0, 0, 0]), KeyPressEvent::KeyboardBacklightKeyPressed);
    assert_eq!(parse_usb_report(&[90, 16, 0, 0, 0, 0]), KeyPressEvent::BrightnessDownKeyPressed);
    assert_eq!(parse_usb_report(&[90, 32, 0, 0, 0, 0]), KeyPressEvent::BrightnessUpKeyPressed);
    assert_eq!(parse_usb_report(&[90, 156, 0, 0, 0, 0]), KeyPressEvent::SwapUpDownDisplayKeyPressed);
    assert_eq!(parse_usb_report(&[90, 124, 0, 0, 0, 0]), KeyPressEvent::MicrophoneMuteKeyPressed);
    assert_eq!(parse_usb_report(&[90, 126, 0, 0, 0, 0]), KeyPressEvent::EmojiPickerKeyPressed);
    assert_eq!(parse_usb_report(&[90, 134, 0, 0, 0, 0]), KeyPressEvent::MyAsusKeyPressed);
    assert_eq!(
        parse_usb_report(&[90, 106, 0, 0, 0, 0]),
        KeyPressEvent::ToggleSecondaryDisplayKeyPressed
    );
}

#[test]
fn parse_usb_report_malformed_releases_all() {
    assert_eq!(parse_usb_report(&[]), KeyPressEvent::AllKeysReleased);
    assert_eq!(parse_usb_report(&[90, 199]), KeyPressEvent::AllKeysReleased);
    assert_eq!(parse_usb_report(&[91, 199, 0, 0, 0, 0]), KeyPressEvent::AllKeysReleased);
    assert_eq!(parse_usb_report(&[90, 199, 1, 0, 0, 0]), KeyPressEvent::AllKeysReleased);
    assert_eq!(parse_usb_report(&[90, 199, 0, 0, 0, 0, 0]), KeyPressEvent::AllKeysReleased);
    assert_eq!(parse_usb_report(&[90, 77, 0, 0, 0, 0]), KeyPressEvent::AllKeysReleased);
}

#[test]
fn press_then_release_emits_exact_writes() {
    let mut vk = VirtualKeyboard::new();
    let writes = vk.release_prev_and_press_keys(&vec![29, 52]);
    assert_eq!(
        writes,
        vec![
            KeyWrite { code: 29, event: KeyEventType::Press },
            KeyWrite { code: 52, event: KeyEventType::Press },
        ]
    );
    let writes = vk.release_prev_and_press_keys(&vec![224]);
    assert_eq!(
        writes,
        vec![
            KeyWrite { code: 29, event: KeyEventType::Release },
            KeyWrite { code: 52, event: KeyEventType::Release },
            KeyWrite { code: 224, event: KeyEventType::Press },
        ]
    );
    let writes = vk.release_all_keys();
    assert_eq!(writes, vec![KeyWrite { code: 224, event: KeyEventType::Release }]);
}

#[test]
fn release_all_twice_emits_no_duplicate_releases() {
    let mut vk = VirtualKeyboard::new();
    let _ = vk.release_prev_and_press_keys(&vec![248]);
    let first = vk.release_all_keys();
    assert_eq!(first, vec![KeyWrite { code: 248, event: KeyEventType::Release }]);
    let second = vk.release_all_keys();
    assert!(second.is_empty());
}

#[test]
fn release_all_on_fresh_keyboard_emits_nothing() {
    let mut vk = VirtualKeyboard::new();
    assert!(vk.release_all_keys().is_empty());
}

#[test]
fn scenario_neutral_backlight_neutral_with_default_config() {
    let bus = EventBus::new();
    let mut rx = bus.receiver();
    let mut manager = KeyboardStateManager::new(false, bus.sender());
    let config = Config::default_config(String::from("1b2c"));
    let mut vk = VirtualKeyboard::new();
    let mut release_all_count = 0;

    for raw in [0i32, 199, 0] {
        let key = decode_key_code(raw);
        match key_press_action(&config, key) {
            KeyAction::ReleaseAll => {
                let writes = vk.release_all_keys();
                assert!(writes.is_empty());
                release_all_count += 1;
            }
            KeyAction::ToggleBacklight => manager.toggle_keyboard_backlight(),
            other => panic!("unexpected action {:?}", other),
        }
    }

    assert_eq!(release_all_count, 2);
    assert_eq!(
        rx.try_recv().unwrap(),
        Event::Backlight(KeyboardBacklightState::Medium) // default Low stepped once
    );
    assert!(rx.try_recv().is_err());
}
