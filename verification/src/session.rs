//! Device-session decisions: endpoint ownership, read-loop steps, and the
//! event-relay mapping.
//!
//! The hotplug supervisors and the blocking device reads live outside the
//! library; every decision they take is made here. A session owns its
//! physical handle exclusively until its device disappears; on shutdown the
//! session releases all synthetically held keys, signals its paired relay
//! task once, updates the state store's attachment flag, and terminates.

use vstd::prelude::*;
use crate::backlight::KeyboardBacklightState;
use crate::events::{Event, KeyPressEvent};
use crate::keys::{
    decode_key_code, parse_usb_report, spec_decode_key_code, spec_parse_usb_report,
    InputEventRecord,
};
use crate::state::{change_events, resync_events, DeviceState, KeyboardStateManager};
use crate::text::{contains_seq, has_prefix, str_contains, str_eq, str_has_prefix};

verus! {

broadcast use vstd::seq_lib::lemma_seq_contains_after_push;

/// Tracks which transport endpoints currently have a live device session,
/// so that exactly one session exists per endpoint at any instant.
pub struct SessionRegistry {
    owned: Vec<u64>,
}

/// The owned endpoints and the verdict after trying to claim `endpoint`:
/// an already-owned endpoint is refused, a free one is recorded.
pub open spec fn spec_claim(owned: Seq<u64>, endpoint: u64) -> (Seq<u64>, bool) {
    if owned.contains(endpoint) {
        (owned, false)
    } else {
        (owned.push(endpoint), true)
    }
}

impl SessionRegistry {
    /// The endpoints with a live session, in claim order.
    pub closed spec fn owned(&self) -> Seq<u64> {
        self.owned@
    }

    /// Whether `endpoint` currently has a live session.
    pub open spec fn owns(&self, endpoint: u64) -> bool {
        self.owned().contains(endpoint)
    }

    /// A fresh registry with no live sessions.
    pub fn new() -> (r: SessionRegistry)
        ensures
            r.owned() == Seq::<u64>::empty(),
    {
        SessionRegistry { owned: Vec::new() }
    }

    fn contains(&self, endpoint: u64) -> (r: bool)
        ensures
            r == self.owns(endpoint),
    {
        let mut i: usize = 0;
        while i < self.owned.len()
            invariant
                i <= self.owned.len(),
                forall|j: int| 0 <= j < i ==> self.owned@[j] != endpoint,
            decreases self.owned.len() - i,
        {
            if self.owned[i] == endpoint {
                return true;
            }
            i += 1;
        }
        false
    }

    /// Tries to take ownership of an endpoint for a new session. Succeeds
    /// exactly when no live session owns it yet; a second claim for an
    /// already-owned endpoint is refused and changes nothing.
    pub fn try_claim(&mut self, endpoint: u64) -> (claimed: bool)
        ensures
            final(self).owned() == spec_claim(old(self).owned(), endpoint).0,
            claimed == spec_claim(old(self).owned(), endpoint).1,
            final(self).owns(endpoint),
    {
        if self.contains(endpoint) {
            false
        } else {
            self.owned.push(endpoint);
            true
        }
    }

    /// Gives an endpoint up when its session ends; afterwards the endpoint
    /// can be claimed again, and no other endpoint is affected.
    pub fn release(&mut self, endpoint: u64)
        ensures
            !final(self).owns(endpoint),
            forall|e: u64| e != endpoint ==> final(self).owns(e) == old(self).owns(e),
    {
        let mut kept: Vec<u64> = Vec::new();
        let mut i: usize = 0;
        while i < self.owned.len()
            invariant
                i <= self.owned.len(),
                !kept@.contains(endpoint),
                forall|e: u64|
                    e != endpoint ==> (kept@.contains(e) == old(self).owned().take(
                        i as int,
                    ).contains(e)),
                self.owned@ == old(self).owned(),
            decreases self.owned.len() - i,
        {
            let v = self.owned[i];
            if v != endpoint {
                kept.push(v);
            }
            proof {
                assert(old(self).owned().take(i + 1 as int) =~= old(self).owned().take(
                    i as int,
                ).push(old(self).owned()[i as int]));
            }
            i += 1;
        }
        proof {
            assert(old(self).owned().take(old(self).owned().len() as int) =~= old(self).owned());
        }
        self.owned = kept;
    }
}

/// Law: endpoint ownership is exclusive — once a claim for an endpoint has
/// succeeded, a second claim for the same endpoint fails, whatever the
/// registry held before.
pub proof fn lemma_single_ownership(owned: Seq<u64>, endpoint: u64)
    ensures
        !spec_claim(spec_claim(owned, endpoint).0, endpoint).1,
{
    let after = spec_claim(owned, endpoint).0;
    if !owned.contains(endpoint) {
        assert(after == owned.push(endpoint));
        assert(after[after.len() - 1] == endpoint);
        assert(after.contains(endpoint));
    }
}

/// The outcome of one blocking interrupt transfer from the wired keyboard.
#[derive(Clone, Debug, PartialEq, Eq)]
pub enum WiredReadOutcome {
    /// A transfer completed with this payload.
    Report(Vec<u8>),
    /// The device disappeared: terminal for this session only.
    Disconnected,
    /// A transient transfer error: logged, never surfaced.
    TransferFailed,
}

/// What the wired read loop must do next.
#[derive(Clone, Copy, Debug, PartialEq, Eq, Structural)]
pub enum WiredStep {
    /// Hand this decoded key press to the key consumer.
    Deliver(KeyPressEvent),
    /// Read again.
    Retry,
    /// Run the session teardown: release held keys, signal the relay task,
    /// mark the keyboard detached, terminate.
    Shutdown,
}

/// The step the wired read loop takes for each read outcome.
pub open spec fn spec_wired_read_step(outcome: WiredReadOutcome) -> WiredStep {
    match outcome {
        WiredReadOutcome::Report(data) => WiredStep::Deliver(spec_parse_usb_report(data@)),
        WiredReadOutcome::Disconnected => WiredStep::Shutdown,
        WiredReadOutcome::TransferFailed => WiredStep::Retry,
    }
}

/// Decides the wired session's next step from one read outcome: a completed
/// report is decoded and delivered, a transient error is retried, and a
/// disappeared device shuts the session down.
pub fn wired_read_step(outcome: &WiredReadOutcome) -> (r: WiredStep)
    ensures
        r == spec_wired_read_step(*outcome),
{
    match outcome {
        WiredReadOutcome::Report(data) => WiredStep::Deliver(parse_usb_report(data.as_slice())),
        WiredReadOutcome::Disconnected => WiredStep::Shutdown,
        WiredReadOutcome::TransferFailed => WiredStep::Retry,
    }
}

/// The outcome of one blocking read from the Bluetooth keyboard's event
/// device.
#[derive(Clone, Copy, Debug, PartialEq, Eq, Structural)]
pub enum BtReadOutcome {
    /// An event on the miscellaneous axis carrying a function-key value.
    Misc(i32),
    /// Any other input event.
    OtherEvent,
    /// The read would block: no event yet.
    WouldBlock,
    /// The device disappeared: terminal for this session only.
    DeviceGone,
    /// Any other read error: transient.
    ReadFailed,
}

/// What the Bluetooth read loop must do next.
#[derive(Clone, Copy, Debug, PartialEq, Eq, Structural)]
pub enum BtStep {
    /// Hand this decoded key press to the key consumer.
    Deliver(KeyPressEvent),
    /// Not a function-key event: read again at once.
    Ignore,
    /// Wait briefly, then read again.
    RetryAfterSleep,
    /// Run the session teardown.
    Shutdown,
}

/// The input event type of an absolute axis.
pub const EVENT_TYPE_ABS: u16 = 3;

/// The code of the miscellaneous absolute axis, on which the keyboard
/// reports its function-key values.
pub const ABS_CODE_MISC: u16 = 40;

/// The read outcome one raw input record amounts to: only the miscellaneous
/// absolute axis carries function-key values; every other record is ignored
/// (though it still counts as activity to the idle engine).
pub fn bt_outcome_of_record(record: &InputEventRecord) -> (r: BtReadOutcome)
    ensures
        (record.event_type == EVENT_TYPE_ABS && record.code == ABS_CODE_MISC) ==> r
            == BtReadOutcome::Misc(record.value),
        !(record.event_type == EVENT_TYPE_ABS && record.code == ABS_CODE_MISC) ==> r
            == BtReadOutcome::OtherEvent,
{
    if record.event_type == EVENT_TYPE_ABS && record.code == ABS_CODE_MISC {
        BtReadOutcome::Misc(record.value)
    } else {
        BtReadOutcome::OtherEvent
    }
}

/// The step the Bluetooth read loop takes for each read outcome.
pub open spec fn spec_bt_read_step(outcome: BtReadOutcome) -> BtStep {
    match outcome {
        BtReadOutcome::Misc(value) => BtStep::Deliver(spec_decode_key_code(value)),
        BtReadOutcome::OtherEvent => BtStep::Ignore,
        BtReadOutcome::WouldBlock => BtStep::RetryAfterSleep,
        BtReadOutcome::DeviceGone => BtStep::Shutdown,
        BtReadOutcome::ReadFailed => BtStep::RetryAfterSleep,
    }
}

/// Decides the Bluetooth session's next step from one read outcome: only
/// the miscellaneous axis carries function keys, would-block and transient
/// errors are retried (after a short sleep, never busy-waiting), and a
/// disappeared device shuts the session down.
pub fn bt_read_step(outcome: &BtReadOutcome) -> (r: BtStep)
    ensures
        r == spec_bt_read_step(*outcome),
{
    match outcome {
        BtReadOutcome::Misc(value) => BtStep::Deliver(decode_key_code(*value)),
        BtReadOutcome::OtherEvent => BtStep::Ignore,
        BtReadOutcome::WouldBlock => BtStep::RetryAfterSleep,
        BtReadOutcome::DeviceGone => BtStep::Shutdown,
        BtReadOutcome::ReadFailed => BtStep::RetryAfterSleep,
    }
}

/// What a session's event-relay task must push to its hardware for one bus
/// event.
#[derive(Clone, Copy, Debug, PartialEq, Eq, Structural)]
pub enum RelayAction {
    /// Send this backlight level to the keyboard.
    SendBacklight(KeyboardBacklightState),
    /// Send this mute-indicator value to the keyboard.
    SendMicMute(bool),
    /// Not hardware-relevant for the session.
    Ignore,
}

/// The hardware write a bus event asks of a session's relay task.
pub open spec fn spec_relay_action(event: Event) -> RelayAction {
    match event {
        Event::Backlight(level) => RelayAction::SendBacklight(level),
        Event::MicMuteLed(on) => RelayAction::SendMicMute(on),
        _ => RelayAction::Ignore,
    }
}

/// Decides what a session's event-relay task pushes to the hardware for one
/// received bus event: exactly the effective backlight and mic-LED values,
/// nothing else.
pub fn session_relay_action(event: &Event) -> (r: RelayAction)
    ensures
        r == spec_relay_action(*event),
{
    match event {
        Event::Backlight(level) => RelayAction::SendBacklight(*level),
        Event::MicMuteLed(on) => RelayAction::SendMicMute(*on),
        _ => RelayAction::Ignore,
    }
}

/// The state the store is left in by one bus event consumed by the
/// state-mutating consumer. Value-carrying events are the store's own
/// republications and attachment notices are handled by the session that
/// observed them, so both leave the state alone here.
pub open spec fn spec_apply_bus_event(s: DeviceState, event: Event) -> DeviceState {
    match event {
        Event::LaptopSuspend => s.with_suspended(true),
        Event::LaptopResume => s.with_suspended(false),
        Event::MicMuteLedToggle => s.with_mic_mute(!s.mic_mute_led),
        Event::BacklightToggle => s.with_backlight(s.backlight.spec_next()),
        Event::SecondaryDisplayToggle => s.with_display(!s.is_secondary_display_enabled),
        _ => s,
    }
}

/// The events the store republishes while consuming one bus event.
pub open spec fn spec_bus_event_events(s: DeviceState, event: Event) -> Seq<Event> {
    match event {
        Event::LaptopResume => resync_events(spec_apply_bus_event(s, event)),
        Event::LaptopSuspend | Event::MicMuteLedToggle | Event::BacklightToggle
            | Event::SecondaryDisplayToggle => change_events(s, spec_apply_bus_event(s, event)),
        _ => Seq::<Event>::empty(),
    }
}

/// Applies one bus event to the state store, as the state-mutating consumer
/// does: suspend and resume drive the suspended flag, the toggle requests
/// step their values, and everything else leaves the store untouched.
pub fn apply_bus_event(manager: &mut KeyboardStateManager, event: &Event)
    ensures
        final(manager)@ == spec_apply_bus_event(old(manager)@, *event),
        final(manager).published() == old(manager).published() + spec_bus_event_events(
            old(manager)@,
            *event,
        ),
{
    match event {
        Event::LaptopSuspend => manager.set_suspended(true),
        Event::LaptopResume => manager.set_suspended(false),
        Event::MicMuteLedToggle => manager.toggle_mic_mute_led(),
        Event::BacklightToggle => manager.toggle_keyboard_backlight(),
        Event::SecondaryDisplayToggle => manager.toggle_secondary_display(),
        _ => {
            proof {
                assert(manager.published() =~= old(manager).published() + spec_bus_event_events(
                    old(manager)@,
                    *event,
                ));
            }
        },
    }
}

/// Whether a device node name under the input-device directory is a
/// candidate event device.
pub fn is_event_device_name(name: &str) -> (r: bool)
    ensures
        r == has_prefix(name@, "event"@),
{
    str_has_prefix(name, "event")
}

/// Whether a device's declared model name is exactly the detachable
/// keyboard's name, as it announces itself over Bluetooth.
pub fn is_target_keyboard_name(name: &str) -> (r: bool)
    ensures
        r == (name@ == "ASUS Zenbook Duo Keyboard"@),
{
    str_eq(name, "ASUS Zenbook Duo Keyboard")
}

/// Whether a device's declared model name mentions the detachable keyboard,
/// as the activity listeners match it.
pub fn mentions_target_keyboard(name: &str) -> (r: bool)
    ensures
        r == contains_seq(name@, "ASUS Zenbook Duo Keyboard"@),
{
    str_contains(name, "ASUS Zenbook Duo Keyboard")
}

/// Whether a numeric user id is an ordinary login user whose session the
/// audio-mute observer may connect to; system users are skipped.
pub fn is_candidate_uid(uid: u32) -> (r: bool)
    ensures
        r == (1000 <= uid <= 2000),
{
    1000 <= uid && uid <= 2000
}

} // verus!
