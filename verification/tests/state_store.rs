use duo_daemon::backlight::KeyboardBacklightState;
use duo_daemon::bus::EventBus;
use duo_daemon::events::Event;
use duo_daemon::state::KeyboardStateManager;

fn new_store(attached: bool) -> (KeyboardStateManager, tokio::sync::broadcast::Receiver<Event>) {
    let bus = EventBus::new();
    let rx = bus.receiver();
    let manager = KeyboardStateManager::new(attached, bus.sender());
    (manager, rx)
}

#[test]
fn initial_state_without_keyboard() {
    let (manager, mut rx) = new_store(false);
    assert_eq!(manager.get_keyboard_backlight(), KeyboardBacklightState::Low);
    assert!(!manager.get_mic_mute_led());
    assert!(!manager.is_idle());
    assert!(!manager.is_suspended());
    assert!(!manager.is_usb_keyboard_attached());
    assert!(manager.is_secondary_display_enabled());
    assert!(rx.try_recv().is_err());
}

#[test]
fn initial_state_with_keyboard() {
    let (manager, _rx) = new_store(true);
    assert!(manager.is_usb_keyboard_attached());
    assert!(!manager.is_secondary_display_enabled());
}

#[test]
fn attach_forces_display_off() {
    let (mut manager, mut rx) = new_store(false);
    manager.set_secondary_display(true);
    assert!(rx.try_recv().is_err()); // already enabled: no change, no event
    manager.set_usb_keyboard_attached(true);
    assert!(!manager.is_secondary_display_enabled());
    assert_eq!(rx.try_recv().unwrap(), Event::SecondaryDisplay(false));
    assert!(rx.try_recv().is_err());
}

#[test]
fn display_request_refused_while_attached() {
    let (mut manager, mut rx) = new_store(true);
    manager.set_secondary_display(true);
    assert!(!manager.is_secondary_display_enabled());
    assert!(rx.try_recv().is_err());
    manager.toggle_secondary_display();
    assert!(!manager.is_secondary_display_enabled());
    assert!(rx.try_recv().is_err());
}

#[test]
fn attach_disables_display_exactly_once() {
    let (mut manager, mut rx) = new_store(false);
    assert!(manager.is_secondary_display_enabled());
    manager.set_usb_keyboard_attached(true);
    manager.set_usb_keyboard_attached(true);
    assert_eq!(rx.try_recv().unwrap(), Event::SecondaryDisplay(false));
    assert!(rx.try_recv().is_err()); // one transition, no flapping
}

#[test]
fn detach_reenables_display() {
    let (mut manager, mut rx) = new_store(true);
    manager.set_usb_keyboard_attached(false);
    assert!(manager.is_secondary_display_enabled());
    assert_eq!(rx.try_recv().unwrap(), Event::SecondaryDisplay(true));
}

#[test]
fn idle_shadows_and_restores_backlight() {
    let (mut manager, _rx) = new_store(false);
    manager.set_keyboard_backlight(KeyboardBacklightState::High);
    assert_eq!(manager.get_keyboard_backlight(), KeyboardBacklightState::High);
    manager.idle_start();
    assert_eq!(manager.get_keyboard_backlight(), KeyboardBacklightState::Off);
    assert_eq!(manager.get_keyboard_backlight_raw(), KeyboardBacklightState::High);
    manager.idle_end();
    assert_eq!(manager.get_keyboard_backlight(), KeyboardBacklightState::High);
}

#[test]
fn idle_events_shadow_then_resync() {
    let (mut manager, mut rx) = new_store(false);
    manager.set_mic_mute_led(true);
    assert_eq!(rx.try_recv().unwrap(), Event::MicMuteLed(true));
    manager.idle_start();
    assert_eq!(rx.try_recv().unwrap(), Event::MicMuteLed(false));
    assert_eq!(rx.try_recv().unwrap(), Event::Backlight(KeyboardBacklightState::Off));
    manager.idle_end();
    assert_eq!(rx.try_recv().unwrap(), Event::MicMuteLed(true));
    assert_eq!(rx.try_recv().unwrap(), Event::Backlight(KeyboardBacklightState::Low));
    assert!(rx.try_recv().is_err());
}

#[test]
fn set_while_idle_updates_raw_without_event() {
    let (mut manager, mut rx) = new_store(false);
    manager.idle_start();
    assert_eq!(rx.try_recv().unwrap(), Event::Backlight(KeyboardBacklightState::Off));
    assert!(rx.try_recv().is_err());
    manager.set_keyboard_backlight(KeyboardBacklightState::Medium);
    assert_eq!(manager.get_keyboard_backlight(), KeyboardBacklightState::Off);
    assert_eq!(manager.get_keyboard_backlight_raw(), KeyboardBacklightState::Medium);
    assert!(rx.try_recv().is_err()); // shadowed: raw updated, no event yet
    manager.idle_end();
    assert_eq!(rx.try_recv().unwrap(), Event::MicMuteLed(false));
    assert_eq!(rx.try_recv().unwrap(), Event::Backlight(KeyboardBacklightState::Medium));
}

#[test]
fn suspend_round_trip_restores_effective_values() {
    let (mut manager, mut rx) = new_store(false);
    manager.set_keyboard_backlight(KeyboardBacklightState::High);
    manager.set_mic_mute_led(true);
    assert_eq!(rx.try_recv().unwrap(), Event::Backlight(KeyboardBacklightState::High));
    assert_eq!(rx.try_recv().unwrap(), Event::MicMuteLed(true));

    manager.set_suspended(true);
    assert_eq!(manager.get_keyboard_backlight(), KeyboardBacklightState::Off);
    assert!(!manager.get_mic_mute_led());
    assert_eq!(rx.try_recv().unwrap(), Event::MicMuteLed(false));
    assert_eq!(rx.try_recv().unwrap(), Event::Backlight(KeyboardBacklightState::Off));

    manager.set_suspended(false);
    assert_eq!(manager.get_keyboard_backlight(), KeyboardBacklightState::High);
    assert!(manager.get_mic_mute_led());
    assert_eq!(rx.try_recv().unwrap(), Event::MicMuteLed(true));
    assert_eq!(rx.try_recv().unwrap(), Event::Backlight(KeyboardBacklightState::High));
    assert!(rx.try_recv().is_err());
}

#[test]
fn mic_mute_toggle_publishes_each_change() {
    let (mut manager, mut rx) = new_store(false);
    manager.toggle_mic_mute_led();
    assert!(manager.get_mic_mute_led());
    assert_eq!(rx.try_recv().unwrap(), Event::MicMuteLed(true));
    manager.toggle_mic_mute_led();
    assert!(!manager.get_mic_mute_led());
    assert_eq!(rx.try_recv().unwrap(), Event::MicMuteLed(false));
}

#[test]
fn setting_same_value_publishes_nothing() {
    let (mut manager, mut rx) = new_store(false);
    manager.set_mic_mute_led(false);
    manager.set_keyboard_backlight(KeyboardBacklightState::Low);
    manager.set_secondary_display(true);
    assert!(rx.try_recv().is_err());
}

#[test]
fn toggle_backlight_cycles_through_bus() {
    let (mut manager, mut rx) = new_store(false);
    manager.toggle_keyboard_backlight();
    assert_eq!(rx.try_recv().unwrap(), Event::Backlight(KeyboardBacklightState::Medium));
    manager.toggle_keyboard_backlight();
    assert_eq!(rx.try_recv().unwrap(), Event::Backlight(KeyboardBacklightState::High));
    manager.toggle_keyboard_backlight();
    assert_eq!(rx.try_recv().unwrap(), Event::Backlight(KeyboardBacklightState::Off));
    manager.toggle_keyboard_backlight();
    assert_eq!(rx.try_recv().unwrap(), Event::Backlight(KeyboardBacklightState::Low));
}

#[test]
fn every_subscriber_sees_every_event() {
    let bus = EventBus::new();
    let mut rx1 = bus.receiver();
    let mut rx2 = bus.receiver();
    let mut manager = KeyboardStateManager::new(false, bus.sender());
    manager.toggle_keyboard_backlight();
    let expected = Event::Backlight(KeyboardBacklightState::Medium);
    assert_eq!(rx1.try_recv().unwrap(), expected);
    assert_eq!(rx2.try_recv().unwrap(), expected);
}
