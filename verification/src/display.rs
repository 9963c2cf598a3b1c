//! Secondary-display decisions: status parsing, the write payload, and the
//! periodic reconciliation.
//!
//! The panel is controlled through a status file written with "on"/"off".
//! Because the panel re-enables itself behind the daemon's back (notably on
//! resume from suspend), a periodic reconciler compares the file's actual
//! state against the store's desired state and rewrites it when they differ;
//! the reconciliation loop, not the event payload, is the source of truth
//! for the hardware whenever exact synchrony matters.

use vstd::prelude::*;
use crate::events::Event;
use crate::text::{str_eq, trim_ascii, trim_seq};

verus! {

/// Whether status-file contents report the panel as enabled: "on" or
/// "connected", surrounding whitespace ignored; anything else (a read
/// failure included) counts as disabled.
pub open spec fn spec_display_status_enabled(contents: Seq<char>) -> bool {
    trim_seq(contents) == "on"@ || trim_seq(contents) == "connected"@
}

/// Parses the panel-status file contents into the panel's actual state.
pub fn parse_display_status(contents: &str) -> (r: bool)
    ensures
        r == spec_display_status_enabled(contents@),
{
    let t = trim_ascii(contents);
    if str_eq(t, "on") {
        true
    } else {
        let r = str_eq(t, "connected");
        r
    }
}

/// The text written to the panel-status file to enable or disable the panel.
pub fn display_status_payload(enable: bool) -> (r: &'static str)
    ensures
        enable ==> r@ == "on"@,
        !enable ==> r@ == "off"@,
{
    if enable {
        "on"
    } else {
        "off"
    }
}

/// The reconciler's decision: rewrite the status file with the desired
/// value exactly when the actual state drifted away from it.
pub fn reconcile_display(actual: bool, desired: bool) -> (r: Option<bool>)
    ensures
        actual != desired ==> r == Some(desired),
        actual == desired ==> r is None,
{
    if actual != desired {
        Some(desired)
    } else {
        None
    }
}

/// The write the display consumer performs for one bus event: exactly the
/// published panel values, nothing else.
pub fn display_event_action(event: &Event) -> (r: Option<bool>)
    ensures
        match *event {
            Event::SecondaryDisplay(enabled) => r == Some(enabled),
            _ => r is None,
        },
{
    match event {
        Event::SecondaryDisplay(enabled) => Some(*enabled),
        _ => None,
    }
}

} // verus!
