//! The header of a frame: where it comes from, where it goes, and the network
//! state it was sent in.

use vstd::prelude::*;

use crate::ident::{is_rfc3339_text, is_url_safe_char, local_now_rfc3339, random_url_safe_id};

verus! {

/// The hop budget of a fresh frame.
pub const DEFAULT_LIFETIME: u8 = 2;

/// The sender ID of a node that has not been assigned one yet.
pub const UNASSIGNED_ID: u16 = 65535;

/// The ID of the master node.
pub const MASTER_ID: u16 = 0;

/// The number of characters in a message identifier.
pub const MESSAGE_ID_LEN: usize = 10;

/// Metadata of a frame: provenance, routing and network partition.
#[derive(PartialEq, Eq, Debug)]
pub struct FrameHeader {
    /// When the frame was built, as RFC 3339 text.
    pub timestamp: String,
    /// How many more times the mesh relays this frame before dropping it.
    pub lifetime: u8,
    /// A short random identifier, used to match acknowledgements to this frame.
    pub message_id: String,
    /// The sender's mesh ID; `UNASSIGNED_ID` while it is still joining.
    pub sender_id: u16,
    /// The recipient's mesh ID; `None` broadcasts to every node.
    pub target_id: Option<u16>,
    /// The sender resends the frame until the recipient acknowledges it.
    pub requires_acknowledgement: bool,
    /// The synchronization tick, wrapping at 65536.
    pub current_tick: u16,
    /// The logical network the frame belongs to.
    pub universe: u8,
    /// Raw ranging data of the radio, carried again as the wire trailer.
    pub ranging_bytes: [u8; 4],
}

/// A message identifier as a fresh header gets it.
pub open spec fn is_message_id(s: Seq<char>) -> bool {
    s.len() == MESSAGE_ID_LEN && forall|i: int| 0 <= i < s.len() ==> is_url_safe_char(#[trigger] s[i])
}

/// A timestamp as a fresh header gets it.
pub open spec fn is_timestamp(s: Seq<char>) -> bool {
    is_rfc3339_text(s)
}

impl FrameHeader {
    /// The header of a frame built now: the local time as RFC 3339 text, a fresh
    /// message identifier, unassigned sender, broadcast, no acknowledgement, tick
    /// and universe zero, no ranging data.
    pub fn new() -> (r: Self)
        ensures
            is_timestamp(r.timestamp@),
            r.lifetime == DEFAULT_LIFETIME,
            is_message_id(r.message_id@),
            r.sender_id == UNASSIGNED_ID,
            r.target_id is None,
            !r.requires_acknowledgement,
            r.current_tick == 0,
            r.universe == 0,
            r.ranging_bytes@ == seq![0u8, 0u8, 0u8, 0u8],
    {
        let timestamp = local_now_rfc3339();
        let message_id = random_url_safe_id(MESSAGE_ID_LEN);
        Self::stamped(timestamp, message_id)
    }

    /// The default header with the given send time and message identifier:
    /// unassigned sender, broadcast, no acknowledgement, tick and universe zero,
    /// no ranging data.
    pub fn stamped(timestamp: String, message_id: String) -> (r: Self)
        ensures
            r.timestamp == timestamp,
            r.message_id == message_id,
            r.lifetime == DEFAULT_LIFETIME,
            r.sender_id == UNASSIGNED_ID,
            r.target_id is None,
            !r.requires_acknowledgement,
            r.current_tick == 0,
            r.universe == 0,
            r.ranging_bytes@ == seq![0u8, 0u8, 0u8, 0u8],
    {
        let ranging_bytes: [u8; 4] = [0u8, 0u8, 0u8, 0u8];
        assert(ranging_bytes@ =~= seq![0u8, 0u8, 0u8, 0u8]);
        FrameHeader {
            timestamp,
            lifetime: DEFAULT_LIFETIME,
            message_id,
            sender_id: UNASSIGNED_ID,
            target_id: None,
            requires_acknowledgement: false,
            current_tick: 0,
            universe: 0,
            ranging_bytes,
        }
    }
}

} // verus!
