//! Hex-string parsing and the wired keyboard's control-report payloads.
//!
//! The wired keyboard is driven by fixed sixteen-byte control reports; the
//! configuration file carries USB ids as hex strings. Both are decoded and
//! built here, in plain verified code.

use vstd::prelude::*;
use crate::backlight::KeyboardBacklightState;

verus! {

/// An ASCII hex digit, either case.
pub open spec fn is_hex_digit(c: char) -> bool {
    (('0' as u32) <= c as u32 && c as u32 <= ('9' as u32)) || (('a' as u32) <= c as u32 && c as u32
        <= ('f' as u32)) || (('A' as u32) <= c as u32 && c as u32 <= ('F' as u32))
}

/// The numeric value of a hex digit.
pub open spec fn hex_digit_value(c: char) -> int {
    if ('0' as u32) <= c as u32 && c as u32 <= ('9' as u32) {
        c as u32 - ('0' as u32)
    } else if ('a' as u32) <= c as u32 && c as u32 <= ('f' as u32) {
        c as u32 - ('a' as u32) + 10
    } else {
        c as u32 - ('A' as u32) + 10
    }
}

/// The byte two hex digits spell, high digit first.
pub open spec fn spec_hex_byte(hi: char, lo: char) -> int {
    16 * hex_digit_value(hi) + hex_digit_value(lo)
}

fn hex_digit(c: char) -> (v: u8)
    requires
        is_hex_digit(c),
    ensures
        v as int == hex_digit_value(c),
        v < 16,
{
    let u = c as u32;
    if u >= 97 {
        (u - 87) as u8
    } else if u >= 65 {
        (u - 55) as u8
    } else {
        (u - 48) as u8
    }
}

/// Decodes a string of hex digit pairs into the bytes it spells. The callers
/// hand in literal payload strings, so a malformed string (odd length or a
/// non-digit) is a programming error and is excluded up front.
pub fn parse_hex_string(hex_string: &str) -> (bytes: Vec<u8>)
    requires
        hex_string@.len() % 2 == 0,
        forall|i: int| 0 <= i < hex_string@.len() ==> is_hex_digit(#[trigger] hex_string@[i]),
    ensures
        bytes@.len() == hex_string@.len() / 2,
        forall|i: int|
            0 <= i < bytes@.len() ==> #[trigger] bytes@[i] as int == spec_hex_byte(
                hex_string@[2 * i],
                hex_string@[2 * i + 1],
            ),
{
    let n = hex_string.unicode_len();
    let mut bytes: Vec<u8> = Vec::new();
    let mut i: usize = 0;
    while i < n
        invariant
            i <= n,
            i % 2 == 0,
            n % 2 == 0,
            n == hex_string@.len(),
            forall|j: int| 0 <= j < n ==> is_hex_digit(#[trigger] hex_string@[j]),
            bytes@.len() == i / 2,
            forall|j: int|
                0 <= j < bytes@.len() ==> #[trigger] bytes@[j] as int == spec_hex_byte(
                    hex_string@[2 * j],
                    hex_string@[2 * j + 1],
                ),
        decreases n - i,
    {
        let hi = hex_digit(hex_string.get_char(i));
        let lo = hex_digit(hex_string.get_char(i + 1));
        bytes.push(16 * hi + lo);
        i += 2;
    }
    bytes
}

/// The number a string of hex digits spells, high digit first.
pub open spec fn spec_hex_value(s: Seq<char>) -> int
    decreases s.len(),
{
    if s.len() == 0 {
        0
    } else {
        16 * spec_hex_value(s.drop_last()) + hex_digit_value(s.last())
    }
}

proof fn lemma_hex_value_bound(s: Seq<char>)
    requires
        s.len() <= 4,
        forall|i: int| 0 <= i < s.len() ==> is_hex_digit(#[trigger] s[i]),
    ensures
        0 <= spec_hex_value(s) < 65536,
        s.len() <= 3 ==> spec_hex_value(s) < 4096,
        s.len() <= 2 ==> spec_hex_value(s) < 256,
        s.len() <= 1 ==> spec_hex_value(s) < 16,
    decreases s.len(),
{
    if s.len() > 0 {
        lemma_hex_value_bound(s.drop_last());
    }
}

/// Parses up to four hex digits as an unsigned sixteen-bit number, as the
/// configuration spells USB vendor and product ids.
pub fn parse_hex_u16(s: &str) -> (v: u16)
    requires
        1 <= s@.len() <= 4,
        forall|i: int| 0 <= i < s@.len() ==> is_hex_digit(#[trigger] s@[i]),
    ensures
        v as int == spec_hex_value(s@),
{
    let n = s.unicode_len();
    let mut v: u16 = 0;
    let mut i: usize = 0;
    while i < n
        invariant
            i <= n <= 4,
            n == s@.len(),
            forall|j: int| 0 <= j < n ==> is_hex_digit(#[trigger] s@[j]),
            v as int == spec_hex_value(s@.take(i as int)),
        decreases n - i,
    {
        let d = hex_digit(s.get_char(i));
        proof {
            lemma_hex_value_bound(s@.take(i as int));
            assert(s@.take(i + 1 as int).drop_last() =~= s@.take(i as int));
        }
        v = 16 * v + d as u16;
        i += 1;
    }
    proof {
        assert(s@.take(n as int) =~= s@);
    }
    v
}

/// The byte that selects a backlight level in a control report.
pub open spec fn spec_level_code(level: KeyboardBacklightState) -> u8 {
    match level {
        KeyboardBacklightState::Off => 0,
        KeyboardBacklightState::Low => 1,
        KeyboardBacklightState::Medium => 2,
        KeyboardBacklightState::High => 3,
    }
}

/// The control report that sets the keyboard backlight to the given level.
pub open spec fn spec_backlight_report(level: KeyboardBacklightState) -> Seq<u8> {
    seq![
        0x5au8,
        0xba,
        0xc5,
        0xc4,
        spec_level_code(level),
        0,
        0,
        0,
        0,
        0,
        0,
        0,
        0,
        0,
        0,
        0,
    ]
}

/// Builds the control report that sets the keyboard backlight level.
pub fn backlight_report(level: KeyboardBacklightState) -> (r: Vec<u8>)
    ensures
        r@ == spec_backlight_report(level),
{
    let code: u8 = match level {
        KeyboardBacklightState::Off => 0,
        KeyboardBacklightState::Low => 1,
        KeyboardBacklightState::Medium => 2,
        KeyboardBacklightState::High => 3,
    };
    let r: Vec<u8> = vec![0x5a, 0xba, 0xc5, 0xc4, code, 0, 0, 0, 0, 0, 0, 0, 0, 0, 0, 0];
    proof {
        assert(r@ =~= spec_backlight_report(level));
    }
    r
}

/// The control report that drives the microphone-mute indicator.
pub open spec fn spec_mic_mute_report(on: bool) -> Seq<u8> {
    seq![
        0x5au8,
        0xd0,
        0x7c,
        if on {
            1u8
        } else {
            0u8
        },
        0,
        0,
        0,
        0,
        0,
        0,
        0,
        0,
        0,
        0,
        0,
        0,
    ]
}

/// Builds the control report that turns the microphone-mute indicator on or
/// off.
pub fn mic_mute_report(on: bool) -> (r: Vec<u8>)
    ensures
        r@ == spec_mic_mute_report(on),
{
    let code: u8 = if on {
        1
    } else {
        0
    };
    let r: Vec<u8> = vec![0x5a, 0xd0, 0x7c, code, 0, 0, 0, 0, 0, 0, 0, 0, 0, 0, 0, 0];
    proof {
        assert(r@ =~= spec_mic_mute_report(on));
    }
    r
}

/// The control report that switches the keyboard's function row into the
/// mode that reports function keys to the host.
pub open spec fn spec_fn_keys_enable_report() -> Seq<u8> {
    seq![0x5au8, 0xd0, 0x4e, 0, 0, 0, 0, 0, 0, 0, 0, 0, 0, 0, 0, 0]
}

/// Builds the control report that enables function-key reporting.
pub fn fn_keys_enable_report() -> (r: Vec<u8>)
    ensures
        r@ == spec_fn_keys_enable_report(),
{
    let r: Vec<u8> = vec![0x5a, 0xd0, 0x4e, 0, 0, 0, 0, 0, 0, 0, 0, 0, 0, 0, 0, 0];
    proof {
        assert(r@ =~= spec_fn_keys_enable_report());
    }
    r
}

} // verus!
