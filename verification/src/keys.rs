//! Key decoding and the synthetic-output bookkeeping.
//!
//! A single raw value identifies at most one logical function key at a time
//! (a hardware limitation: function-key chords are impossible), the neutral
//! value zero means "no function key pressed", and unrecognized values are
//! treated like the neutral value, so that everything synthetically held is
//! released rather than left stale. [`VirtualKeyboard`] tracks which key
//! codes are currently held down and returns the exact press/release events
//! the device layer must write; the device I/O itself lives outside the
//! library.

use vstd::prelude::*;
use crate::events::KeyPressEvent;

verus! {

/// The direction of one synthetic input event.
#[derive(Clone, Copy, Debug, PartialEq, Eq, Structural)]
pub enum KeyEventType {
    Release,
    Press,
}

impl KeyEventType {
    /// The wire value of the event type: release is zero, press is one.
    pub open spec fn spec_value(self) -> i32 {
        match self {
            KeyEventType::Release => 0,
            KeyEventType::Press => 1,
        }
    }

    /// The wire value of the event type: release is zero, press is one.
    pub fn value(&self) -> (r: i32)
        ensures
            r == self.spec_value(),
    {
        match self {
            KeyEventType::Release => 0,
            KeyEventType::Press => 1,
        }
    }
}

/// One synthetic input event destined for the output keyboard device.
#[derive(Clone, Copy, Debug, PartialEq, Eq, Structural)]
pub struct KeyWrite {
    /// The key code, as the input subsystem numbers keys.
    pub code: u16,
    /// Press or release.
    pub event: KeyEventType,
}

/// The release events for the given key codes, in order.
pub open spec fn releases_of(keys: Seq<u16>) -> Seq<KeyWrite> {
    keys.map_values(|k: u16| KeyWrite { code: k, event: KeyEventType::Release })
}

/// The press events for the given key codes, in order.
pub open spec fn presses_of(keys: Seq<u16>) -> Seq<KeyWrite> {
    keys.map_values(|k: u16| KeyWrite { code: k, event: KeyEventType::Press })
}

/// The pressed-key codes and emitted writes after releasing everything:
/// nothing stays pressed, and exactly the previously pressed keys are
/// released, in order.
pub open spec fn spec_release_all(pressed: Seq<u16>) -> (Seq<u16>, Seq<KeyWrite>) {
    (Seq::<u16>::empty(), releases_of(pressed))
}

/// Bookkeeping for the synthetic output keyboard: which key codes are
/// currently held down. Redundant releases are safe and emit nothing.
pub struct VirtualKeyboard {
    pressed_keys: Vec<u16>,
}

impl VirtualKeyboard {
    /// The key codes currently held down, in press order.
    pub closed spec fn pressed(&self) -> Seq<u16> {
        self.pressed_keys@
    }

    /// A fresh output keyboard with nothing held down.
    pub fn new() -> (r: VirtualKeyboard)
        ensures
            r.pressed() == Seq::<u16>::empty(),
    {
        VirtualKeyboard { pressed_keys: Vec::new() }
    }

    /// Releases every currently held key: returns one release event per held
    /// key, in press order, and afterwards nothing is held. When nothing was
    /// held, no events are emitted at all.
    pub fn release_all_keys(&mut self) -> (writes: Vec<KeyWrite>)
        ensures
            final(self).pressed() == spec_release_all(old(self).pressed()).0,
            writes@ == spec_release_all(old(self).pressed()).1,
    {
        let mut writes: Vec<KeyWrite> = Vec::new();
        if self.pressed_keys.len() > 0 {
            let mut i: usize = 0;
            while i < self.pressed_keys.len()
                invariant
                    i <= self.pressed_keys.len(),
                    self.pressed_keys@ == old(self).pressed(),
                    writes@ == releases_of(old(self).pressed().take(i as int)),
                decreases self.pressed_keys.len() - i,
            {
                let k = self.pressed_keys[i];
                writes.push(KeyWrite { code: k, event: KeyEventType::Release });
                proof {
                    assert(releases_of(old(self).pressed().take(i + 1 as int)) =~= releases_of(
                        old(self).pressed().take(i as int),
                    ).push(KeyWrite { code: k, event: KeyEventType::Release }));
                }
                i += 1;
            }
            self.pressed_keys.clear();
        }
        proof {
            assert(writes@ =~= releases_of(old(self).pressed()));
        }
        writes
    }

    /// Releases everything currently held, then presses exactly the given
    /// keys: the emitted events are the releases of the previously held keys
    /// followed by the presses of `keys`, and afterwards exactly `keys` are
    /// held.
    pub fn release_prev_and_press_keys(&mut self, keys: &Vec<u16>) -> (writes: Vec<KeyWrite>)
        ensures
            final(self).pressed() == keys@,
            writes@ == releases_of(old(self).pressed()) + presses_of(keys@),
    {
        let mut writes = self.release_all_keys();
        let mut i: usize = 0;
        while i < keys.len()
            invariant
                i <= keys.len(),
                self.pressed_keys@ == keys@.take(i as int),
                writes@ == releases_of(old(self).pressed()) + presses_of(keys@.take(i as int)),
            decreases keys.len() - i,
        {
            let k = keys[i];
            writes.push(KeyWrite { code: k, event: KeyEventType::Press });
            self.pressed_keys.push(k);
            proof {
                assert(keys@.take(i + 1 as int) =~= keys@.take(i as int).push(k));
                assert(presses_of(keys@.take(i + 1 as int)) =~= presses_of(
                    keys@.take(i as int),
                ).push(KeyWrite { code: k, event: KeyEventType::Press }));
                assert(writes@ =~= releases_of(old(self).pressed()) + presses_of(
                    keys@.take(i + 1 as int),
                ));
            }
            i += 1;
        }
        proof {
            assert(keys@.take(keys@.len() as int) =~= keys@);
            assert(self.pressed_keys@ == keys@);
        }
        writes
    }
}

/// Law: releasing all keys is idempotent — after one release, a second
/// release with no presses in between emits no events at all.
pub proof fn lemma_release_all_idempotent(pressed: Seq<u16>)
    ensures
        spec_release_all(spec_release_all(pressed).0).1 == Seq::<KeyWrite>::empty(),
{
    assert(spec_release_all(spec_release_all(pressed).0).1 =~= Seq::<KeyWrite>::empty());
}

/// Which logical function key a raw value identifies. The neutral value
/// zero and every unrecognized value decode to `AllKeysReleased`.
pub open spec fn spec_decode_key_code(value: i32) -> KeyPressEvent {
    if value == 199 {
        KeyPressEvent::KeyboardBacklightKeyPressed
    } else if value == 16 {
        KeyPressEvent::BrightnessDownKeyPressed
    } else if value == 32 {
        KeyPressEvent::BrightnessUpKeyPressed
    } else if value == 156 {
        KeyPressEvent::SwapUpDownDisplayKeyPressed
    } else if value == 124 {
        KeyPressEvent::MicrophoneMuteKeyPressed
    } else if value == 126 {
        KeyPressEvent::EmojiPickerKeyPressed
    } else if value == 134 {
        KeyPressEvent::MyAsusKeyPressed
    } else if value == 106 {
        KeyPressEvent::ToggleSecondaryDisplayKeyPressed
    } else {
        KeyPressEvent::AllKeysReleased
    }
}

/// Decodes one raw function-key value, as reported by the keyboard's
/// miscellaneous axis, into the key press it identifies.
pub fn decode_key_code(value: i32) -> (r: KeyPressEvent)
    ensures
        r == spec_decode_key_code(value),
{
    if value == 199 {
        KeyPressEvent::KeyboardBacklightKeyPressed
    } else if value == 16 {
        KeyPressEvent::BrightnessDownKeyPressed
    } else if value == 32 {
        KeyPressEvent::BrightnessUpKeyPressed
    } else if value == 156 {
        KeyPressEvent::SwapUpDownDisplayKeyPressed
    } else if value == 124 {
        KeyPressEvent::MicrophoneMuteKeyPressed
    } else if value == 126 {
        KeyPressEvent::EmojiPickerKeyPressed
    } else if value == 134 {
        KeyPressEvent::MyAsusKeyPressed
    } else if value == 106 {
        KeyPressEvent::ToggleSecondaryDisplayKeyPressed
    } else {
        KeyPressEvent::AllKeysReleased
    }
}

/// One record read from an input event device, already split into its
/// fields: the event type, the code within that type, and the value.
#[derive(Clone, Copy, Debug, PartialEq, Eq, Structural)]
pub struct InputEventRecord {
    pub event_type: u16,
    pub code: u16,
    pub value: i32,
}

/// The sixteen-bit little-endian number at offset `off`.
pub open spec fn spec_le16(b: Seq<u8>, off: int) -> int {
    b[off] + 256 * b[off + 1]
}

/// The signed thirty-two-bit little-endian number at offset `off`.
pub open spec fn spec_le32_signed(b: Seq<u8>, off: int) -> int {
    let u = b[off] + 256 * b[off + 1] + 65536 * b[off + 2] + 16777216 * b[off + 3];
    if u >= 0x8000_0000 {
        u - 0x1_0000_0000
    } else {
        u
    }
}

/// Splits one raw record read from an input event device into its fields.
/// On a 64-bit machine a record is 24 bytes: 16 bytes of timestamp, then
/// type and code as sixteen-bit little-endian numbers and a signed
/// thirty-two-bit value. Anything of another length is rejected.
pub fn parse_input_event(buf: &[u8]) -> (r: Option<InputEventRecord>)
    ensures
        buf@.len() != 24 ==> r is None,
        buf@.len() == 24 ==> (r matches Some(e) && e.event_type as int == spec_le16(buf@, 16)
            && e.code as int == spec_le16(buf@, 18) && e.value as int == spec_le32_signed(
            buf@,
            20,
        )),
{
    if buf.len() != 24 {
        return None;
    }
    let event_type: u16 = buf[16] as u16 + 256 * (buf[17] as u16);
    let code: u16 = buf[18] as u16 + 256 * (buf[19] as u16);
    let unsigned: u32 = buf[20] as u32 + 256 * (buf[21] as u32) + 65536 * (buf[22] as u32)
        + 16777216 * (buf[23] as u32);
    let wide: i64 = if unsigned >= 0x8000_0000 {
        unsigned as i64 - 0x1_0000_0000i64
    } else {
        unsigned as i64
    };
    let value: i32 = wide as i32;
    Some(InputEventRecord { event_type, code, value })
}

/// What a wired-keyboard interrupt report decodes to: a six-byte report
/// whose first byte is 90 and whose last four bytes are zero carries the
/// function-key value in its second byte; anything else is treated as the
/// neutral report.
pub open spec fn spec_parse_usb_report(data: Seq<u8>) -> KeyPressEvent {
    if data.len() == 6 && data[0] == 90 && data[2] == 0 && data[3] == 0 && data[4] == 0 && data[5]
        == 0 {
        spec_decode_key_code(data[1] as i32)
    } else {
        KeyPressEvent::AllKeysReleased
    }
}

/// Decodes one interrupt report read from the wired keyboard.
pub fn parse_usb_report(data: &[u8]) -> (r: KeyPressEvent)
    ensures
        r == spec_parse_usb_report(data@),
{
    if data.len() == 6 && data[0] == 90 && data[2] == 0 && data[3] == 0 && data[4] == 0 && data[5]
        == 0 {
        decode_key_code(data[1] as i32)
    } else {
        KeyPressEvent::AllKeysReleased
    }
}

} // verus!
