//! Errors raised while turning a received buffer back into a frame.

use vstd::prelude::*;

verus! {

/// Why a received buffer could not be turned into a frame.
#[derive(Clone, PartialEq, Eq, Debug)]
pub enum FrameError {
    /// The body between the marker and the trailer is not a well-formed serialized frame.
    SerializeError,
    /// The buffer does not open with the marker `LEDswarm`; holds the eight bytes found there.
    NoMagicString(Vec<u8>),
    /// The buffer is too short to hold the marker, a body and the trailer.
    BufferTooShort,
}

} // verus!
