//! A frame of the mesh protocol: a header and a payload, built with chained
//! calls and laid out on the wire by `encode`.
//!
//! A join request is composed like this:
//!
//! ```rust
//! use ledswarm_protocol::frame::{ControllerMessage, Frame};
//!
//! let join_request = Frame::new()
//!     .message(ControllerMessage::JoinRequest)
//!     .require_confirmation()
//!     .target_id(0)
//!     .tick(12);
//! ```

use vstd::prelude::*;

use crate::error::FrameError;
use crate::header::{is_message_id, is_timestamp, DEFAULT_LIFETIME, MASTER_ID, UNASSIGNED_ID};
use crate::wire::{
    body_of, frame_bytes, framed, has_magic, lemma_split_framed, split_buffer, trailer_of,
};

pub use crate::header::FrameHeader;
pub use crate::payload::{
    ClientMessage, ControllerMessage, FramePayload, InternalMessage, ProtocolMessage,
};

verus! {

/// One unit of data exchanged over the mesh.
#[derive(PartialEq, Eq, Debug)]
pub struct Frame {
    /// Provenance, routing and network state.
    pub header: FrameHeader,
    /// What the frame carries.
    pub payload: FramePayload,
}

impl Frame {
    /// This frame with its header's ranging bytes replaced.
    pub open spec fn restamped(self, ranging_bytes: [u8; 4]) -> Frame {
        Frame { header: FrameHeader { ranging_bytes, ..self.header }, ..self }
    }

    /// A frame built now with a fresh header and no payload.
    pub fn new() -> (r: Self)
        ensures
            is_timestamp(r.header.timestamp@),
            r.header.lifetime == DEFAULT_LIFETIME,
            is_message_id(r.header.message_id@),
            r.header.sender_id == UNASSIGNED_ID,
            r.header.target_id is None,
            !r.header.requires_acknowledgement,
            r.header.current_tick == 0,
            r.header.universe == 0,
            r.header.ranging_bytes@ == seq![0u8, 0u8, 0u8, 0u8],
            r.payload is Empty,
    {
        Frame { header: FrameHeader::new(), payload: FramePayload::Empty }
    }

    /// A controller's request to join the mesh: addressed to the master node,
    /// to be acknowledged, stamped with the given tick.
    pub fn join_request(tick: u16) -> (r: Self)
        ensures
            r.payload == FramePayload::ControllerMessage(ControllerMessage::JoinRequest),
            r.header.requires_acknowledgement,
            r.header.target_id == Some(MASTER_ID),
            r.header.current_tick == tick,
            is_timestamp(r.header.timestamp@),
            r.header.lifetime == DEFAULT_LIFETIME,
            is_message_id(r.header.message_id@),
            r.header.sender_id == UNASSIGNED_ID,
            r.header.universe == 0,
            r.header.ranging_bytes@ == seq![0u8, 0u8, 0u8, 0u8],
    {
        Self::new().message(ControllerMessage::JoinRequest).require_confirmation().target_id(
            MASTER_ID,
        ).tick(tick)
    }

    /// Carries a controller message.
    pub fn message(self, msg: ControllerMessage) -> (r: Self)
        ensures
            r == (Frame { payload: FramePayload::ControllerMessage(msg), ..self }),
    {
        Frame { payload: FramePayload::ControllerMessage(msg), ..self }
    }

    /// Carries a protocol message.
    pub fn protocol_message(self, protocol_msg: ProtocolMessage) -> (r: Self)
        ensures
            r == (Frame { payload: FramePayload::ProtocolMessage(protocol_msg), ..self }),
    {
        Frame { payload: FramePayload::ProtocolMessage(protocol_msg), ..self }
    }

    /// Carries an internal message.
    pub fn internal_message(self, msg: InternalMessage) -> (r: Self)
        ensures
            r == (Frame { payload: FramePayload::InternalMessage(msg), ..self }),
    {
        Frame { payload: FramePayload::InternalMessage(msg), ..self }
    }

    /// Carries a client message.
    pub fn client_message(self, msg: ClientMessage) -> (r: Self)
        ensures
            r == (Frame { payload: FramePayload::ClientMessage(msg), ..self }),
    {
        Frame { payload: FramePayload::ClientMessage(msg), ..self }
    }

    /// Sets the hop budget.
    pub fn lifetime(self, lifetime: u8) -> (r: Self)
        ensures
            r == (Frame { header: FrameHeader { lifetime, ..self.header }, ..self }),
    {
        let mut f = self;
        f.header.lifetime = lifetime;
        f
    }

    /// Sets the sender's mesh ID.
    pub fn sender_id(self, id: u16) -> (r: Self)
        ensures
            r == (Frame { header: FrameHeader { sender_id: id, ..self.header }, ..self }),
    {
        let mut f = self;
        f.header.sender_id = id;
        f
    }

    /// Addresses the frame to one node.
    pub fn target_id(self, id: u16) -> (r: Self)
        ensures
            r == (Frame { header: FrameHeader { target_id: Some(id), ..self.header }, ..self }),
    {
        let mut f = self;
        f.header.target_id = Some(id);
        f
    }

    /// Sets the synchronization tick.
    pub fn tick(self, current_tick: u16) -> (r: Self)
        ensures
            r == (Frame { header: FrameHeader { current_tick, ..self.header }, ..self }),
    {
        let mut f = self;
        f.header.current_tick = current_tick;
        f
    }

    /// Sets the logical network.
    pub fn universe(self, num: u8) -> (r: Self)
        ensures
            r == (Frame { header: FrameHeader { universe: num, ..self.header }, ..self }),
    {
        let mut f = self;
        f.header.universe = num;
        f
    }

    /// Asks the recipient to acknowledge the frame.
    pub fn require_confirmation(self) -> (r: Self)
        ensures
            r == (Frame {
                header: FrameHeader { requires_acknowledgement: true, ..self.header },
                ..self
            }),
    {
        let mut f = self;
        f.header.requires_acknowledgement = true;
        f
    }

    /// Lays the frame out on the wire, given `body`, the frame serialized: the
    /// marker, the body, and the header's ranging bytes as trailer.
    pub fn encode(&self, body: &[u8]) -> (r: Vec<u8>)
        ensures
            r@ == framed(body@, self.header.ranging_bytes@),
    {
        frame_bytes(body, self.header.ranging_bytes)
    }

    /// Finishes decoding once the body has been deserialized: `parsed` is the
    /// frame read from the body, or `None` where the body was not one, and
    /// `ranging_bytes` the buffer's trailer, which wins over the ranging bytes
    /// of the body.
    pub fn from_parts(parsed: Option<Frame>, ranging_bytes: [u8; 4]) -> (r: Result<
        Frame,
        FrameError,
    >)
        ensures
            parsed is None ==> r == Err::<Frame, FrameError>(FrameError::SerializeError),
            parsed is Some ==> r == Ok::<Frame, FrameError>(
                parsed->Some_0.restamped(ranging_bytes),
            ),
    {
        match parsed {
            Some(f) => {
                let mut f = f;
                f.header.ranging_bytes = ranging_bytes;
                Ok(f)
            },
            None => Err(FrameError::SerializeError),
        }
    }

    /// Decodes a received buffer, with `parse` reading a frame from the body.
    ///
    /// A buffer that `split_buffer` refuses fails with the same error, and
    /// `parse` is not called. Otherwise `parse` gets the body; where it finds no
    /// frame the result is `SerializeError`, and where it finds one the result is
    /// that frame with the trailer as its ranging bytes.
    pub fn decode<F: Fn(&[u8]) -> Option<Frame>>(buf: &[u8], parse: F) -> (r: Result<
        Frame,
        FrameError,
    >)
        requires
            forall|b: &[u8]| #[trigger] parse.requires((b,)),
        ensures
            r matches Err(FrameError::NoMagicString(p)) <==> (buf@.len() >= 8 && !has_magic(
                buf@,
            )),
            r matches Err(FrameError::NoMagicString(p)) ==> p@ == buf@.subrange(0, 8),
            r matches Err(FrameError::BufferTooShort) <==> (buf@.len() < 8 || (has_magic(buf@)
                && buf@.len() < 12)),
            (has_magic(buf@) && buf@.len() >= 12) ==> exists|b: &[u8], parsed: Option<Frame>|
                {
                    &&& b@ == body_of(buf@)
                    &&& #[trigger] parse.ensures((b,), parsed)
                    &&& parsed is None ==> r == Err::<Frame, FrameError>(
                        FrameError::SerializeError,
                    )
                    &&& parsed is Some ==> r is Ok && r->Ok_0.header.ranging_bytes@ == trailer_of(
                        buf@,
                    ) && r->Ok_0 == parsed->Some_0.restamped(r->Ok_0.header.ranging_bytes)
                },
    {
        let parts = match split_buffer(buf) {
            Ok(parts) => parts,
            Err(e) => return Err(e),
        };
        let body = parts.body.as_slice();
        let parsed = parse(body);
        let r = Self::from_parts(parsed, parts.ranging_bytes);
        assert(parse.ensures((body,), parsed));
        r
    }
}

fn copy_header(h: &FrameHeader) -> (r: FrameHeader)
    ensures
        r == *h,
{
    FrameHeader {
        timestamp: h.timestamp.clone(),
        lifetime: h.lifetime,
        message_id: h.message_id.clone(),
        sender_id: h.sender_id,
        target_id: h.target_id,
        requires_acknowledgement: h.requires_acknowledgement,
        current_tick: h.current_tick,
        universe: h.universe,
        ranging_bytes: h.ranging_bytes,
    }
}

fn copy_protocol_message(m: &ProtocolMessage) -> (r: ProtocolMessage)
    ensures
        r == *m,
{
    match m {
        ProtocolMessage::Acknowledged { message_id } => ProtocolMessage::Acknowledged {
            message_id: message_id.clone(),
        },
        ProtocolMessage::Tick(t) => ProtocolMessage::Tick(*t),
    }
}

fn copy_client_message(m: &ClientMessage) -> (r: ClientMessage)
    ensures
        r == *m,
{
    match m {
        ClientMessage::SetBrightness(b) => ClientMessage::SetBrightness(*b),
        ClientMessage::StartRound(name) => ClientMessage::StartRound(name.clone()),
        ClientMessage::EndRound => ClientMessage::EndRound,
    }
}

fn copy_internal_message(m: &InternalMessage) -> (r: InternalMessage)
    ensures
        r == *m,
    decreases m,
{
    match m {
        InternalMessage::AccelerometerJoltDelta(d) => InternalMessage::AccelerometerJoltDelta(*d),
        InternalMessage::AccelerometerRaw { x, y, z } => InternalMessage::AccelerometerRaw {
            x: *x,
            y: *y,
            z: *z,
        },
        InternalMessage::ClientMessage(c) => InternalMessage::ClientMessage(
            copy_client_message(c),
        ),
        InternalMessage::Frame(f) => InternalMessage::Frame(Box::new(copy_frame(f))),
    }
}

fn copy_payload(p: &FramePayload) -> (r: FramePayload)
    ensures
        r == *p,
    decreases p,
{
    match p {
        FramePayload::ControllerMessage(m) => FramePayload::ControllerMessage(*m),
        FramePayload::ProtocolMessage(m) => FramePayload::ProtocolMessage(
            copy_protocol_message(m),
        ),
        FramePayload::ClientMessage(m) => FramePayload::ClientMessage(copy_client_message(m)),
        FramePayload::InternalMessage(m) => FramePayload::InternalMessage(
            copy_internal_message(m),
        ),
        FramePayload::Empty => FramePayload::Empty,
    }
}

fn copy_frame(f: &Frame) -> (r: Frame)
    ensures
        r == *f,
    decreases f,
{
    Frame { header: copy_header(&f.header), payload: copy_payload(&f.payload) }
}

impl Clone for FrameHeader {
    fn clone(&self) -> (r: Self)
        ensures
            r == *self,
    {
        copy_header(self)
    }
}

impl Clone for ProtocolMessage {
    fn clone(&self) -> (r: Self)
        ensures
            r == *self,
    {
        copy_protocol_message(self)
    }
}

impl Clone for ClientMessage {
    fn clone(&self) -> (r: Self)
        ensures
            r == *self,
    {
        copy_client_message(self)
    }
}

impl Clone for InternalMessage {
    fn clone(&self) -> (r: Self)
        ensures
            r == *self,
    {
        copy_internal_message(self)
    }
}

impl Clone for FramePayload {
    fn clone(&self) -> (r: Self)
        ensures
            r == *self,
    {
        copy_payload(self)
    }
}

impl Clone for Frame {
    fn clone(&self) -> (r: Self)
        ensures
            r == *self,
    {
        copy_frame(self)
    }
}

/// Round trip with the trailer winning: the buffer that `encode` lays out for a
/// frame `f` and body `body` splits back into `body` and `f`'s ranging bytes, and
/// a frame `g` read back from that body that agrees with `f` in all but its
/// ranging bytes is finished by `from_parts` into `f` itself.
pub proof fn lemma_round_trip(f: Frame, body: Seq<u8>, g: Frame, trailer: [u8; 4])
    requires
        g.restamped(f.header.ranging_bytes) == f,
        trailer@ == trailer_of(framed(body, f.header.ranging_bytes@)),
    ensures
        has_magic(framed(body, f.header.ranging_bytes@)),
        framed(body, f.header.ranging_bytes@).len() >= 12,
        body_of(framed(body, f.header.ranging_bytes@)) == body,
        trailer == f.header.ranging_bytes,
        g.restamped(trailer) == f,
{
    lemma_split_framed(body, f.header.ranging_bytes@);
    assert(trailer =~= f.header.ranging_bytes);
}

} // verus!
