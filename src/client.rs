//! Messages between a master node and connected GUI clients, sent as JSON over a
//! WebSocket rather than over the radio.

use vstd::prelude::*;

verus! {

/// A message to or from a GUI client.
#[derive(Clone, PartialEq, Eq, Debug)]
pub struct ClientFrame {}

/// Metadata of a client message.
#[derive(Clone, PartialEq, Eq, Debug)]
pub struct ClientHeader {
    /// A ten-character random message identifier.
    pub id: String,
}

/// What a client message carries.
#[derive(Clone, Copy, PartialEq, Eq, Debug)]
pub enum ClientPayload {
    /// Global controller brightness between 0.0 and 1.0, as `f32` bits.
    SetBrightness(u32),
}

} // verus!
