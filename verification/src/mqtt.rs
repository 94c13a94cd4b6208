//! What arrives from the message broker.
use crate::protocol::ScreenImageChunk;
use vstd::prelude::*;

verus! {

/// A message for the device.
#[derive(Debug, Clone)]
pub enum MqttEvent {
    /// A picture of the active session's screen.
    ActiveScreen(ScreenImageChunk),
    /// A text frame of the active session's screen.
    ActiveText(Vec<u8>),
    /// A session came online or went offline.
    Presence { prefix: String, online: bool, list_changed: bool, was_active: bool },
}

} // verus!
