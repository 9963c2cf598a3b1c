//! The state store: the single source of truth for device state.
//!
//! All mutation of device state goes through [`KeyboardStateManager`]. Every
//! setter applies two policies before anything becomes observable:
//!
//! * the secondary display is forced off while the wired keyboard is
//!   attached (the keyboard physically covers the panel);
//! * the *effective* backlight and mic-mute-LED values are shadowed to
//!   `Off`/`false` while the daemon is idle or suspended, while the stored
//!   desired values are kept untouched so they can be restored exactly.
//!
//! Each mutation publishes on the event bus exactly one event per effective
//! value it changed, and ending idle or suspend always republishes the
//! current effective backlight and mic-LED values so hardware resynchronizes.

use vstd::prelude::*;
use crate::backlight::KeyboardBacklightState;
use crate::bus::send_event;
use crate::events::Event;

verus! {

/// The sole mutable aggregate of device state. One instance is created at
/// daemon start and lives for the life of the process.
#[derive(Clone, Copy, Debug, PartialEq, Eq, Structural)]
pub struct DeviceState {
    /// Desired keyboard backlight intensity.
    pub backlight: KeyboardBacklightState,
    /// Desired microphone-mute indicator.
    pub mic_mute_led: bool,
    /// True once no keyboard activity was observed for the configured timeout.
    pub is_idle: bool,
    /// True between a suspend-start and suspend-end command pair.
    pub is_suspended: bool,
    /// True while a wired keyboard session is active.
    pub is_usb_attached: bool,
    /// Desired panel power state.
    pub is_secondary_display_enabled: bool,
}

impl DeviceState {
    /// The state a freshly started daemon begins in, seeded from a probe of
    /// whether the wired keyboard is currently present.
    pub open spec fn initial(is_usb_attached: bool) -> DeviceState {
        DeviceState {
            backlight: KeyboardBacklightState::Low,
            mic_mute_led: false,
            is_idle: false,
            is_suspended: false,
            is_usb_attached,
            is_secondary_display_enabled: !is_usb_attached,
        }
    }

    /// Shadowing of the light values is in force while idle or suspended.
    pub open spec fn is_shadowed(self) -> bool {
        self.is_idle || self.is_suspended
    }

    /// The backlight value subscribers observe: the desired value, shadowed
    /// to `Off` while idle or suspended.
    pub open spec fn effective_backlight(self) -> KeyboardBacklightState {
        if self.is_shadowed() {
            KeyboardBacklightState::Off
        } else {
            self.backlight
        }
    }

    /// The mic-mute-LED value subscribers observe: the desired value,
    /// shadowed to `false` while idle or suspended.
    pub open spec fn effective_mic_mute(self) -> bool {
        if self.is_shadowed() {
            false
        } else {
            self.mic_mute_led
        }
    }

    /// The same state with the idle flag replaced.
    pub open spec fn with_idle(self, idle: bool) -> DeviceState {
        DeviceState { is_idle: idle, ..self }
    }

    /// The same state with the suspended flag replaced.
    pub open spec fn with_suspended(self, suspended: bool) -> DeviceState {
        DeviceState { is_suspended: suspended, ..self }
    }

    /// The same state with the desired mic-mute-LED value replaced.
    pub open spec fn with_mic_mute(self, on: bool) -> DeviceState {
        DeviceState { mic_mute_led: on, ..self }
    }

    /// The same state with the desired backlight level replaced.
    pub open spec fn with_backlight(self, level: KeyboardBacklightState) -> DeviceState {
        DeviceState { backlight: level, ..self }
    }

    /// The same state with the desired display value replaced, after the
    /// display policy: while the wired keyboard is attached the panel stays
    /// off whatever was asked for.
    pub open spec fn with_display(self, enabled: bool) -> DeviceState {
        DeviceState { is_secondary_display_enabled: enabled && !self.is_usb_attached, ..self }
    }

    /// The same state with the attachment flag replaced. Attaching forces
    /// the covered panel off; detaching re-enables it.
    pub open spec fn with_attached(self, attached: bool) -> DeviceState {
        DeviceState { is_usb_attached: attached, is_secondary_display_enabled: !attached, ..self }
    }
}

/// The events a mutation from state `o` to state `n` publishes: exactly one
/// event per effective value that changed, in the order mic-mute-LED,
/// backlight, secondary display.
pub open spec fn change_events(o: DeviceState, n: DeviceState) -> Seq<Event> {
    let mic = if n.effective_mic_mute() != o.effective_mic_mute() {
        seq![Event::MicMuteLed(n.effective_mic_mute())]
    } else {
        Seq::<Event>::empty()
    };
    let bl = if n.effective_backlight() != o.effective_backlight() {
        seq![Event::Backlight(n.effective_backlight())]
    } else {
        Seq::<Event>::empty()
    };
    let disp = if n.is_secondary_display_enabled != o.is_secondary_display_enabled {
        seq![Event::SecondaryDisplay(n.is_secondary_display_enabled)]
    } else {
        Seq::<Event>::empty()
    };
    mic + bl + disp
}

/// The resynchronization burst published whenever idle or suspend ends:
/// the current effective mic-mute-LED and backlight values, always, so that
/// hardware that slept through the shadow period is driven back in sync.
pub open spec fn resync_events(n: DeviceState) -> Seq<Event> {
    seq![Event::MicMuteLed(n.effective_mic_mute()), Event::Backlight(n.effective_backlight())]
}

/// The state store. It owns the current [`DeviceState`], applies the display
/// and shadowing policies on every mutation, and republishes each changed
/// effective value on the event bus. Callers that share it across threads
/// wrap it in one exclusive-access lock; mutations are then totally ordered.
pub struct KeyboardStateManager {
    state: DeviceState,
    sender: tokio::sync::broadcast::Sender<Event>,
    log: Ghost<Seq<Event>>,
}

impl View for KeyboardStateManager {
    type V = DeviceState;

    closed spec fn view(&self) -> DeviceState {
        self.state
    }
}

impl KeyboardStateManager {
    /// Every event this store has published on the bus, in publish order.
    pub closed spec fn published(&self) -> Seq<Event> {
        self.log@
    }

    /// Publishes one event and records it in the publish history.
    fn publish(&mut self, event: Event)
        ensures
            final(self)@ == old(self)@,
            final(self).published() == old(self).published().push(event),
    {
        send_event(&self.sender, event);
        self.log = Ghost(self.log@.push(event));
    }

    /// Publishes whatever effective values changed between the prior state
    /// `o` (whose effective values the caller passes in) and the current
    /// state, in the fixed order of [`change_events`].
    fn publish_changes(
        &mut self,
        o_mic: bool,
        o_bl: KeyboardBacklightState,
        o_disp: bool,
        Ghost(o): Ghost<DeviceState>,
    )
        requires
            o_mic == o.effective_mic_mute(),
            o_bl == o.effective_backlight(),
            o_disp == o.is_secondary_display_enabled,
        ensures
            final(self)@ == old(self)@,
            final(self).published() == old(self).published() + change_events(o, old(self)@),
    {
        let ghost n = self@;
        let n_mic = self.get_mic_mute_led();
        if n_mic != o_mic {
            self.publish(Event::MicMuteLed(n_mic));
        }
        let n_bl = self.get_keyboard_backlight();
        if n_bl != o_bl {
            self.publish(Event::Backlight(n_bl));
        }
        let n_disp = self.is_secondary_display_enabled();
        if n_disp != o_disp {
            self.publish(Event::SecondaryDisplay(n_disp));
        }
        proof {
            assert(self.published() =~= old(self).published() + change_events(o, n));
        }
    }

    /// A fresh store, seeded from a synchronous probe of whether the wired
    /// keyboard is currently present; the display starts enabled exactly
    /// when the keyboard is absent. Nothing has been published yet.
    pub fn new(
        is_usb_attached: bool,
        sender: tokio::sync::broadcast::Sender<Event>,
    ) -> (r: KeyboardStateManager)
        ensures
            r@ == DeviceState::initial(is_usb_attached),
            r.published() == Seq::<Event>::empty(),
    {
        KeyboardStateManager {
            state: DeviceState {
                backlight: KeyboardBacklightState::Low,
                mic_mute_led: false,
                is_idle: false,
                is_suspended: false,
                is_usb_attached,
                is_secondary_display_enabled: !is_usb_attached,
            },
            sender,
            log: Ghost(Seq::empty()),
        }
    }

    /// Marks the daemon idle: the effective backlight and mic-LED values are
    /// shadowed to off, the desired values are kept, and each effective
    /// value that changed is published once.
    pub fn idle_start(&mut self)
        ensures
            final(self)@ == old(self)@.with_idle(true),
            final(self).published() == old(self).published() + change_events(
                old(self)@,
                final(self)@,
            ),
    {
        let o_mic = self.get_mic_mute_led();
        let o_bl = self.get_keyboard_backlight();
        let o_disp = self.is_secondary_display_enabled();
        let ghost o = self@;
        self.state.is_idle = true;
        self.publish_changes(o_mic, o_bl, o_disp, Ghost(o));
    }

    /// Marks the daemon active again and always republishes the current
    /// effective mic-LED and backlight values, restoring the desired values
    /// that idle had shadowed.
    pub fn idle_end(&mut self)
        ensures
            final(self)@ == old(self)@.with_idle(false),
            final(self).published() == old(self).published() + resync_events(final(self)@),
    {
        self.state.is_idle = false;
        let mic = self.get_mic_mute_led();
        self.publish(Event::MicMuteLed(mic));
        let bl = self.get_keyboard_backlight();
        self.publish(Event::Backlight(bl));
        proof {
            assert(self.published() =~= old(self).published() + resync_events(self@));
        }
    }

    /// Sets the suspended flag. Entering suspend shadows the light values
    /// and publishes each effective value that changed; leaving suspend
    /// always republishes both current effective values.
    pub fn set_suspended(&mut self, suspended: bool)
        ensures
            final(self)@ == old(self)@.with_suspended(suspended),
            suspended ==> final(self).published() == old(self).published() + change_events(
                old(self)@,
                final(self)@,
            ),
            !suspended ==> final(self).published() == old(self).published() + resync_events(
                final(self)@,
            ),
    {
        let o_mic = self.get_mic_mute_led();
        let o_bl = self.get_keyboard_backlight();
        let o_disp = self.is_secondary_display_enabled();
        let ghost o = self@;
        self.state.is_suspended = suspended;
        if suspended {
            self.publish_changes(o_mic, o_bl, o_disp, Ghost(o));
        } else {
            let mic = self.get_mic_mute_led();
            self.publish(Event::MicMuteLed(mic));
            let bl = self.get_keyboard_backlight();
            self.publish(Event::Backlight(bl));
            proof {
                assert(self.published() =~= old(self).published() + resync_events(self@));
            }
        }
    }

    /// Sets the desired mic-mute-LED value; the new effective value is
    /// published only if it differs (in particular, not while shadowed).
    pub fn set_mic_mute_led(&mut self, enabled: bool)
        ensures
            final(self)@ == old(self)@.with_mic_mute(enabled),
            final(self).published() == old(self).published() + change_events(
                old(self)@,
                final(self)@,
            ),
    {
        let o_mic = self.get_mic_mute_led();
        let o_bl = self.get_keyboard_backlight();
        let o_disp = self.is_secondary_display_enabled();
        let ghost o = self@;
        self.state.mic_mute_led = enabled;
        self.publish_changes(o_mic, o_bl, o_disp, Ghost(o));
    }

    /// Flips the desired mic-mute-LED value; publishes as `set_mic_mute_led`.
    pub fn toggle_mic_mute_led(&mut self)
        ensures
            final(self)@ == old(self)@.with_mic_mute(!old(self)@.mic_mute_led),
            final(self).published() == old(self).published() + change_events(
                old(self)@,
                final(self)@,
            ),
    {
        let o_mic = self.get_mic_mute_led();
        let o_bl = self.get_keyboard_backlight();
        let o_disp = self.is_secondary_display_enabled();
        let ghost o = self@;
        self.state.mic_mute_led = !self.state.mic_mute_led;
        self.publish_changes(o_mic, o_bl, o_disp, Ghost(o));
    }

    /// The effective mic-mute-LED value: off while idle or suspended.
    pub fn get_mic_mute_led(&self) -> (r: bool)
        ensures
            r == self@.effective_mic_mute(),
    {
        if self.state.is_idle || self.state.is_suspended {
            false
        } else {
            self.state.mic_mute_led
        }
    }

    /// The stored desired mic-mute-LED value, ignoring shadowing.
    pub fn get_mic_mute_led_raw(&self) -> (r: bool)
        ensures
            r == self@.mic_mute_led,
    {
        self.state.mic_mute_led
    }

    /// Sets the desired backlight level; the new effective value is
    /// published only if it differs (in particular, not while shadowed).
    pub fn set_keyboard_backlight(&mut self, level: KeyboardBacklightState)
        ensures
            final(self)@ == old(self)@.with_backlight(level),
            final(self).published() == old(self).published() + change_events(
                old(self)@,
                final(self)@,
            ),
    {
        let o_mic = self.get_mic_mute_led();
        let o_bl = self.get_keyboard_backlight();
        let o_disp = self.is_secondary_display_enabled();
        let ghost o = self@;
        self.state.backlight = level;
        self.publish_changes(o_mic, o_bl, o_disp, Ghost(o));
    }

    /// Steps the desired backlight level one notch along the cyclic order;
    /// publishes as `set_keyboard_backlight`.
    pub fn toggle_keyboard_backlight(&mut self)
        ensures
            final(self)@ == old(self)@.with_backlight(old(self)@.backlight.spec_next()),
            final(self).published() == old(self).published() + change_events(
                old(self)@,
                final(self)@,
            ),
    {
        let o_mic = self.get_mic_mute_led();
        let o_bl = self.get_keyboard_backlight();
        let o_disp = self.is_secondary_display_enabled();
        let ghost o = self@;
        self.state.backlight = self.state.backlight.next();
        self.publish_changes(o_mic, o_bl, o_disp, Ghost(o));
    }

    /// The effective backlight level: `Off` while idle or suspended.
    pub fn get_keyboard_backlight(&self) -> (r: KeyboardBacklightState)
        ensures
            r == self@.effective_backlight(),
    {
        if self.state.is_idle || self.state.is_suspended {
            KeyboardBacklightState::Off
        } else {
            self.state.backlight
        }
    }

    /// The stored desired backlight level, ignoring shadowing.
    pub fn get_keyboard_backlight_raw(&self) -> (r: KeyboardBacklightState)
        ensures
            r == self@.backlight,
    {
        self.state.backlight
    }

    /// Asks for the panel to be enabled or disabled. While the wired
    /// keyboard is attached the panel is forced off whatever was asked; the
    /// new value is published only if it changed.
    pub fn set_secondary_display(&mut self, enabled: bool)
        ensures
            final(self)@ == old(self)@.with_display(enabled),
            final(self).published() == old(self).published() + change_events(
                old(self)@,
                final(self)@,
            ),
    {
        let o_mic = self.get_mic_mute_led();
        let o_bl = self.get_keyboard_backlight();
        let o_disp = self.is_secondary_display_enabled();
        let ghost o = self@;
        self.state.is_secondary_display_enabled = enabled && !self.state.is_usb_attached;
        self.publish_changes(o_mic, o_bl, o_disp, Ghost(o));
    }

    /// Flips the panel request; forced off while the keyboard is attached,
    /// published only if the value changed.
    pub fn toggle_secondary_display(&mut self)
        ensures
            final(self)@ == old(self)@.with_display(!old(self)@.is_secondary_display_enabled),
            final(self).published() == old(self).published() + change_events(
                old(self)@,
                final(self)@,
            ),
    {
        let o_mic = self.get_mic_mute_led();
        let o_bl = self.get_keyboard_backlight();
        let o_disp = self.is_secondary_display_enabled();
        let ghost o = self@;
        self.state.is_secondary_display_enabled = !self.state.is_secondary_display_enabled
            && !self.state.is_usb_attached;
        self.publish_changes(o_mic, o_bl, o_disp, Ghost(o));
    }

    /// Records arrival or departure of the wired keyboard. Attaching forces
    /// the covered panel off; detaching re-enables it. The new panel value
    /// is published only if it changed.
    pub fn set_usb_keyboard_attached(&mut self, attached: bool)
        ensures
            final(self)@ == old(self)@.with_attached(attached),
            final(self).published() == old(self).published() + change_events(
                old(self)@,
                final(self)@,
            ),
    {
        let o_mic = self.get_mic_mute_led();
        let o_bl = self.get_keyboard_backlight();
        let o_disp = self.is_secondary_display_enabled();
        let ghost o = self@;
        self.state.is_usb_attached = attached;
        self.state.is_secondary_display_enabled = !attached;
        self.publish_changes(o_mic, o_bl, o_disp, Ghost(o));
    }

    /// Whether the panel is currently enabled (policy already applied).
    pub fn is_secondary_display_enabled(&self) -> (r: bool)
        ensures
            r == self@.is_secondary_display_enabled,
    {
        self.state.is_secondary_display_enabled
    }

    /// Whether the daemon currently considers itself idle.
    pub fn is_idle(&self) -> (r: bool)
        ensures
            r == self@.is_idle,
    {
        self.state.is_idle
    }

    /// Whether the daemon is between a suspend-start and suspend-end pair.
    pub fn is_suspended(&self) -> (r: bool)
        ensures
            r == self@.is_suspended,
    {
        self.state.is_suspended
    }

    /// Whether a wired keyboard session is currently active.
    pub fn is_usb_keyboard_attached(&self) -> (r: bool)
        ensures
            r == self@.is_usb_attached,
    {
        self.state.is_usb_attached
    }
}

/// Law: after the wired keyboard is marked attached, the secondary display
/// is disabled, regardless of its value immediately prior.
pub proof fn lemma_attach_disables_display(s: DeviceState)
    ensures
        !s.with_attached(true).is_secondary_display_enabled,
{
}

/// Law: entering idle shadows the effective backlight and mic-LED values to
/// off without overwriting the stored desired values, and leaving idle right
/// after restores exactly the effective values an un-suspended daemon had.
pub proof fn lemma_idle_shadow_restore(s: DeviceState)
    ensures
        s.with_idle(true).effective_backlight() == KeyboardBacklightState::Off,
        !s.with_idle(true).effective_mic_mute(),
        s.with_idle(true).backlight == s.backlight,
        s.with_idle(true).mic_mute_led == s.mic_mute_led,
        s.with_idle(true).with_idle(false) == s.with_idle(false),
        !s.is_suspended ==> s.with_idle(true).with_idle(false).effective_backlight()
            == s.backlight,
        !s.is_suspended ==> s.with_idle(true).with_idle(false).effective_mic_mute()
            == s.mic_mute_led,
{
}

/// Law: entering suspend shadows the effective backlight and mic-LED values
/// to off without overwriting the stored desired values, and leaving suspend
/// right after restores exactly the effective values a non-idle daemon had.
pub proof fn lemma_suspend_shadow_restore(s: DeviceState)
    ensures
        s.with_suspended(true).effective_backlight() == KeyboardBacklightState::Off,
        !s.with_suspended(true).effective_mic_mute(),
        s.with_suspended(true).backlight == s.backlight,
        s.with_suspended(true).mic_mute_led == s.mic_mute_led,
        s.with_suspended(true).with_suspended(false) == s.with_suspended(false),
        !s.is_idle ==> s.with_suspended(true).with_suspended(false).effective_backlight()
            == s.backlight,
        !s.is_idle ==> s.with_suspended(true).with_suspended(false).effective_mic_mute()
            == s.mic_mute_led,
{
}

/// The hardware constraint on the panel: it is never enabled while the wired
/// keyboard that covers it is attached.
pub open spec fn display_policy_holds(s: DeviceState) -> bool {
    s.is_usb_attached ==> !s.is_secondary_display_enabled
}

/// Law: the display policy holds of a fresh store and is preserved by every
/// mutation the store offers.
pub proof fn lemma_display_policy_invariant(
    s: DeviceState,
    level: KeyboardBacklightState,
    b: bool,
)
    requires
        display_policy_holds(s),
    ensures
        display_policy_holds(DeviceState::initial(b)),
        display_policy_holds(s.with_idle(b)),
        display_policy_holds(s.with_suspended(b)),
        display_policy_holds(s.with_mic_mute(b)),
        display_policy_holds(s.with_backlight(level)),
        display_policy_holds(s.with_display(b)),
        display_policy_holds(s.with_attached(b)),
{
}

/// Law: marking the keyboard attached is idempotent — repeating it leaves
/// the state unchanged and publishes nothing, so the panel transitions to
/// disabled exactly once on attach, without flapping.
pub proof fn lemma_attach_idempotent(s: DeviceState)
    ensures
        s.with_attached(true).with_attached(true) == s.with_attached(true),
        change_events(s.with_attached(true), s.with_attached(true).with_attached(true))
            == Seq::<Event>::empty(),
{
    assert(change_events(s.with_attached(true), s.with_attached(true).with_attached(true))
        =~= Seq::<Event>::empty());
}

} // verus!
