//! The broadcast event bus and the key-press channel.
//!
//! The bus is a multi-producer, multi-consumer broadcast: every subscriber
//! receives every event published after it subscribed, in publish order. A
//! subscriber that polls too slowly loses the oldest events (a detectable
//! lagged condition) instead of ever blocking a publisher; once every sender
//! is gone, receivers see a terminal closed condition. The key-press channel
//! is an unbounded queue from the device read loops to the key consumer.

use vstd::prelude::*;
use crate::events::{Event, KeyPressEvent};

verus! {

/// `tokio::sync::broadcast::Sender`, declared so bus handles can stand in
/// verified signatures and fields; values of it stay opaque.
#[verifier::external_type_specification]
#[verifier::external_body]
#[verifier::reject_recursive_types(T)]
pub struct ExBroadcastSender<T>(tokio::sync::broadcast::Sender<T>);

/// `tokio::sync::broadcast::Receiver`, declared for the same purpose.
#[verifier::external_type_specification]
#[verifier::external_body]
#[verifier::reject_recursive_types(T)]
pub struct ExBroadcastReceiver<T>(tokio::sync::broadcast::Receiver<T>);

/// `crossbeam_channel::Sender`, declared for the same purpose.
#[verifier::external_type_specification]
#[verifier::external_body]
#[verifier::reject_recursive_types(T)]
pub struct ExChannelSender<T>(crossbeam_channel::Sender<T>);

/// `crossbeam_channel::Receiver`, declared for the same purpose.
#[verifier::external_type_specification]
#[verifier::external_body]
#[verifier::reject_recursive_types(T)]
pub struct ExChannelReceiver<T>(crossbeam_channel::Receiver<T>);

/// Relies on tokio::sync::broadcast::Sender::new: creates the sending half of
/// a broadcast channel that buffers up to `capacity` events per subscriber.
/// It panics when `capacity` is zero or above `usize::MAX / 2`, so those
/// capacities are excluded here.
#[verifier::external_body]
fn new_broadcast_sender(capacity: usize) -> tokio::sync::broadcast::Sender<Event>
    requires
        1 <= capacity <= usize::MAX / 2,
{
    tokio::sync::broadcast::Sender::new(capacity)
}

/// Relies on tokio::sync::broadcast::Sender::send: hands the event to the
/// buffer of every currently subscribed receiver. The error returned when no
/// receiver exists is deliberately dropped; a publish with nobody listening
/// is not a fault of the publisher.
#[verifier::external_body]
pub(crate) fn send_event(sender: &tokio::sync::broadcast::Sender<Event>, event: Event) {
    let _ = sender.send(event);
}

/// Relies on tokio::sync::broadcast::Sender::subscribe: creates a receiver
/// that observes every event sent after this call, in publish order.
#[verifier::external_body]
fn subscribe_events(sender: &tokio::sync::broadcast::Sender<Event>) -> tokio::sync::broadcast::Receiver<Event> {
    sender.subscribe()
}

/// Relies on the `Clone` impl of tokio::sync::broadcast::Sender: yields
/// another sending handle onto the same channel.
#[verifier::external_body]
fn clone_broadcast_sender(
    sender: &tokio::sync::broadcast::Sender<Event>,
) -> tokio::sync::broadcast::Sender<Event> {
    sender.clone()
}

/// Relies on crossbeam_channel::unbounded: creates an unbounded
/// multi-producer, multi-consumer queue of key-press events.
#[verifier::external_body]
fn new_key_press_channel() -> (
    crossbeam_channel::Sender<KeyPressEvent>,
    crossbeam_channel::Receiver<KeyPressEvent>,
) {
    crossbeam_channel::unbounded()
}

/// Relies on the `Clone` impl of crossbeam_channel::Sender: yields another
/// sending handle onto the same queue.
#[verifier::external_body]
fn clone_key_press_sender(
    sender: &crossbeam_channel::Sender<KeyPressEvent>,
) -> crossbeam_channel::Sender<KeyPressEvent> {
    sender.clone()
}

/// Relies on the `Clone` impl of crossbeam_channel::Receiver: yields another
/// receiving handle onto the same queue.
#[verifier::external_body]
fn clone_key_press_receiver(
    receiver: &crossbeam_channel::Receiver<KeyPressEvent>,
) -> crossbeam_channel::Receiver<KeyPressEvent> {
    receiver.clone()
}

/// The daemon-wide broadcast bus for [`Event`] values. Publishing never
/// blocks; slow subscribers lag and must re-derive state from the state
/// store rather than trust dropped events.
pub struct EventBus {
    sender: tokio::sync::broadcast::Sender<Event>,
}

impl EventBus {
    /// A fresh bus with no subscribers yet.
    pub fn new() -> EventBus {
        EventBus { sender: new_broadcast_sender(64) }
    }

    /// A sending handle onto this bus, for publishers such as the state store.
    pub fn sender(&self) -> tokio::sync::broadcast::Sender<Event> {
        clone_broadcast_sender(&self.sender)
    }

    /// A fresh, independent receive handle; it sees every event published
    /// from now on, in publish order.
    pub fn receiver(&self) -> tokio::sync::broadcast::Receiver<Event> {
        subscribe_events(&self.sender)
    }
}

/// The unbounded queue that carries decoded [`KeyPressEvent`] values from the
/// device read loops to the key consumer.
pub struct KeyPressEventBus {
    sender: crossbeam_channel::Sender<KeyPressEvent>,
    receiver: crossbeam_channel::Receiver<KeyPressEvent>,
}

impl KeyPressEventBus {
    /// A fresh queue with no pending key presses.
    pub fn new() -> KeyPressEventBus {
        let (sender, receiver) = new_key_press_channel();
        KeyPressEventBus { sender, receiver }
    }

    /// A sending handle onto the queue.
    pub fn sender(&self) -> crossbeam_channel::Sender<KeyPressEvent> {
        clone_key_press_sender(&self.sender)
    }

    /// A receiving handle onto the queue.
    pub fn receiver(&self) -> crossbeam_channel::Receiver<KeyPressEvent> {
        clone_key_press_receiver(&self.receiver)
    }
}

} // verus!
