//! The payloads a frame can carry, one family per kind of transaction.
//!
//! Fractional quantities (a brightness, an acceleration) are kept as the bit
//! pattern of an IEEE-754 single-precision number, as `f32::to_bits` gives it.

use vstd::prelude::*;

use crate::frame::Frame;

verus! {

/// High-level transactions between controllers and the master node.
#[derive(Clone, Copy, PartialEq, Eq, Debug)]
pub enum ControllerMessage {
    /// A controller asks the master node for an ID in the mesh.
    JoinRequest,
    /// The master node assigns the asking controller an ID.
    JoinResponse { assigned_id: u16 },
}

/// Low-level control messages of the mesh.
#[derive(PartialEq, Eq, Debug)]
pub enum ProtocolMessage {
    /// Confirms receipt of the frame with this message identifier.
    Acknowledged { message_id: String },
    /// The current synchronization tick.
    Tick(u16),
}

/// Messages to or from a connected GUI client.
#[derive(PartialEq, Eq, Debug)]
pub enum ClientMessage {
    /// Global LED brightness between 0.0 and 1.0, as `f32` bits.
    SetBrightness(u32),
    /// Start a game with the given name.
    StartRound(String),
    /// End the game round, if one is running.
    EndRound,
}

/// Messages that stay inside one node.
#[derive(PartialEq, Eq, Debug)]
pub enum InternalMessage {
    /// The average change of acceleration (jolt) of the enclosure, as `f32` bits.
    AccelerometerJoltDelta(u32),
    /// A raw accelerometer reading, each axis as `f32` bits.
    AccelerometerRaw { x: u32, y: u32, z: u32 },
    /// A client message passed along inside the node.
    ClientMessage(ClientMessage),
    /// A whole frame, for relaying or inspection.
    Frame(Box<Frame>),
}

/// The content of a frame.
#[derive(PartialEq, Eq, Debug)]
pub enum FramePayload {
    /// Joining the mesh and other high-level commands.
    ControllerMessage(ControllerMessage),
    /// Acknowledgements, ticks and other control messages.
    ProtocolMessage(ProtocolMessage),
    /// A message to or from a connected GUI client.
    ClientMessage(ClientMessage),
    /// A message for use inside the node.
    InternalMessage(InternalMessage),
    /// No content: a frame that is all header.
    Empty,
}

} // verus!
