//! Message schema and binary wire framing for LEDswarm mesh nodes.
//!
//! A frame travels over the radio as the marker `LEDswarm`, a serialized body
//! and a four-byte ranging trailer. This crate holds the data model, the frame
//! builder and the framing rules; turning a frame into body bytes and back is
//! the serializer's part.

pub mod client;
pub mod error;
pub mod frame;
pub mod header;
mod ident;
pub mod packet;
pub mod payload;
pub mod wire;

pub use self::error::FrameError;
pub use self::frame::Frame;
pub use self::header::FrameHeader;
pub use self::packet::{GameMode, UwbMessage, UwbPacket, UwbPacketError};
pub use self::payload::{
    ClientMessage, ControllerMessage, FramePayload, InternalMessage, ProtocolMessage,
};
pub use self::wire::WireParts;
