//! Coordination core for a laptop with a detachable keyboard, a secondary
//! panel display, a keyboard backlight and a microphone-mute indicator.
//!
//! The crate centres on a single authoritative state store
//! ([`state::KeyboardStateManager`]) and a broadcast event bus
//! ([`bus::EventBus`]). Every mutation is serialized through the store, which
//! enforces the cross-cutting policies (the secondary display is forced off
//! while a wired keyboard is attached; backlight and mic-LED reads are
//! shadowed to off while idle or suspended) and republishes each changed
//! effective value on the bus exactly once.

pub mod backlight;
pub mod bus;
pub mod commands;
pub mod config;
pub mod display;
pub mod events;
pub mod idle;
pub mod keys;
pub mod reports;
pub mod session;
pub mod state;
pub mod text;
