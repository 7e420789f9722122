//! The earlier packet schema of the radio mesh, framed on the wire as frames are.

use vstd::prelude::*;

use crate::error::FrameError;
use crate::wire::{body_of, frame_bytes, framed, has_magic, split_buffer, trailer_of, WireParts};

verus! {

/// Why a received buffer could not be turned into a packet.
#[derive(Clone, PartialEq, Eq, Debug)]
pub enum UwbPacketError {
    /// The body between the marker and the trailer is not a well-formed serialized packet.
    SerializeError,
    /// The buffer does not open with the marker `LEDswarm`; holds the eight bytes found there.
    NoMagicString(Vec<u8>),
    /// The buffer is too short to hold the marker, a body and the trailer.
    BufferTooShort,
}

/// A data packet sent between controllers in the mesh.
#[derive(Clone, PartialEq, Eq, Debug)]
pub struct UwbPacket {
    pub sender_id: u16,
    pub target_id: Option<u16>,
    pub timestamp: String,
    pub ranging_bytes: [u8; 4],
    pub message: UwbMessage,
    /// How many more times the mesh relays this packet before dropping it.
    pub lifetime: u8,
}

/// The game a controller is playing.
#[derive(Clone, Copy, PartialEq, Eq, Debug)]
pub enum GameMode {
    /// Not in a game session.
    Idle,
    /// Keep your own light green while turning the others red; the last green one wins.
    LastOneStanding,
    /// Teams take over each other's controllers until all show one color.
    Territory,
}

/// What a packet carries.
#[derive(Clone, Copy, PartialEq, Eq, Debug)]
pub enum UwbMessage {
    /// Confirms receipt of the packet with this UUID, as its 128-bit value.
    Acknowledged { uuid: u128 },
    /// Asks the master node for an ID in a nearby mesh.
    JoinRequest,
    /// The master node assigns the asking controller an ID.
    Welcome { controller_id: u16 },
    /// The controller is about to leave the session.
    Bye,
    /// Global LED brightness between 0.0 and 1.0, as `f32` bits.
    SetBrightness(u32),
    /// Starts a game round in the given mode.
    StartRound(GameMode),
    /// The current game round has ended.
    EndRound,
    /// The synchronization counter.
    Tick(u16),
    /// Checks that the mesh is alive.
    Ping,
    /// Answers a `Ping`.
    Pong,
}

impl UwbPacket {
    /// This packet with its ranging bytes replaced.
    pub open spec fn restamped(self, ranging_bytes: [u8; 4]) -> UwbPacket {
        UwbPacket { ranging_bytes, ..self }
    }

    /// Lays the packet out on the wire, given `body`, the packet serialized: the
    /// marker, the body, and the ranging bytes as trailer.
    pub fn encode(&self, body: &[u8]) -> (r: Vec<u8>)
        ensures
            r@ == framed(body@, self.ranging_bytes@),
    {
        frame_bytes(body, self.ranging_bytes)
    }

    /// Takes a received buffer apart into the body to deserialize and the
    /// trailer, as `split_buffer` does, with this schema's errors.
    pub fn split(buf: &[u8]) -> (r: Result<WireParts, UwbPacketError>)
        ensures
            r is Ok <==> (has_magic(buf@) && buf@.len() >= 12),
            r is Ok ==> r->Ok_0.body@ == body_of(buf@) && r->Ok_0.ranging_bytes@ == trailer_of(
                buf@,
            ),
            r matches Err(UwbPacketError::NoMagicString(p)) <==> (buf@.len() >= 8 && !has_magic(
                buf@,
            )),
            r matches Err(UwbPacketError::NoMagicString(p)) ==> p@ == buf@.subrange(0, 8),
            r matches Err(UwbPacketError::BufferTooShort) <==> (buf@.len() < 8 || (has_magic(buf@)
                && buf@.len() < 12)),
            !(r matches Err(UwbPacketError::SerializeError)),
    {
        match split_buffer(buf) {
            Ok(parts) => Ok(parts),
            Err(FrameError::NoMagicString(prefix)) => Err(UwbPacketError::NoMagicString(prefix)),
            Err(FrameError::BufferTooShort) => Err(UwbPacketError::BufferTooShort),
            Err(FrameError::SerializeError) => Err(UwbPacketError::SerializeError),
        }
    }

    /// Finishes decoding once the body has been deserialized: `parsed` is the
    /// packet read from the body, or `None` where the body was not one, and
    /// `ranging_bytes` the buffer's trailer, which wins over the body's.
    pub fn from_parts(parsed: Option<UwbPacket>, ranging_bytes: [u8; 4]) -> (r: Result<
        UwbPacket,
        UwbPacketError,
    >)
        ensures
            parsed is None ==> r == Err::<UwbPacket, UwbPacketError>(
                UwbPacketError::SerializeError,
            ),
            parsed is Some ==> r == Ok::<UwbPacket, UwbPacketError>(
                parsed->Some_0.restamped(ranging_bytes),
            ),
    {
        match parsed {
            Some(p) => {
                let mut p = p;
                p.ranging_bytes = ranging_bytes;
                Ok(p)
            },
            None => Err(UwbPacketError::SerializeError),
        }
    }

    /// Decodes a received buffer, with `parse` reading a packet from the body.
    ///
    /// A buffer that `split` refuses fails with the same error, and `parse` is
    /// not called. Otherwise `parse` gets the body; where it finds no packet the
    /// result is `SerializeError`, and where it finds one the result is that
    /// packet with the trailer as its ranging bytes.
    pub fn decode<F: Fn(&[u8]) -> Option<UwbPacket>>(buf: &[u8], parse: F) -> (r: Result<
        UwbPacket,
        UwbPacketError,
    >)
        requires
            forall|b: &[u8]| #[trigger] parse.requires((b,)),
        ensures
            r matches Err(UwbPacketError::NoMagicString(p)) <==> (buf@.len() >= 8 && !has_magic(
                buf@,
            )),
            r matches Err(UwbPacketError::NoMagicString(p)) ==> p@ == buf@.subrange(0, 8),
            r matches Err(UwbPacketError::BufferTooShort) <==> (buf@.len() < 8 || (has_magic(buf@)
                && buf@.len() < 12)),
            (has_magic(buf@) && buf@.len() >= 12) ==> exists|b: &[u8], parsed: Option<UwbPacket>|
                {
                    &&& b@ == body_of(buf@)
                    &&& #[trigger] parse.ensures((b,), parsed)
                    &&& parsed is None ==> r == Err::<UwbPacket, UwbPacketError>(
                        UwbPacketError::SerializeError,
                    )
                    &&& parsed is Some ==> r is Ok && r->Ok_0.ranging_bytes@ == trailer_of(buf@)
                        && r->Ok_0 == parsed->Some_0.restamped(r->Ok_0.ranging_bytes)
                },
    {
        let parts = match Self::split(buf) {
            Ok(parts) => parts,
            Err(e) => return Err(e),
        };
        let body = parts.body.as_slice();
        let parsed = parse(body);
        let r = Self::from_parts(parsed, parts.ranging_bytes);
        assert(parse.ensures((body,), parsed));
        r
    }
}

} // verus!
