//! The wire layout of a frame: the marker `LEDswarm`, the serialized body, and
//! the four ranging bytes as a trailer.

use vstd::prelude::*;

use crate::error::FrameError;

verus! {

/// Length of the leading marker.
pub const MAGIC_LEN: usize = 8;

/// Length of the ranging trailer.
pub const TRAILER_LEN: usize = 4;

/// The shortest buffer that can hold a marker, an empty body and a trailer.
pub const MIN_BUFFER_LEN: usize = 12;

/// The ASCII bytes of `LEDswarm`.
pub open spec fn magic() -> Seq<u8> {
    seq![76u8, 69u8, 68u8, 115u8, 119u8, 97u8, 114u8, 109u8]
}

/// The buffer opens with the marker.
pub open spec fn has_magic(buf: Seq<u8>) -> bool {
    buf.len() >= 8 && buf.subrange(0, 8) == magic()
}

/// The buffer that carries `body` with `trailer` behind it.
pub open spec fn framed(body: Seq<u8>, trailer: Seq<u8>) -> Seq<u8> {
    magic() + body + trailer
}

/// The body segment of a buffer: everything between the marker and the trailer.
pub open spec fn body_of(buf: Seq<u8>) -> Seq<u8> {
    buf.subrange(8, buf.len() - 4)
}

/// The last four bytes of a buffer.
pub open spec fn trailer_of(buf: Seq<u8>) -> Seq<u8> {
    buf.subrange(buf.len() - 4, buf.len() as int)
}

/// A well-framed buffer taken apart: the body to deserialize and the trailer.
#[derive(Clone, PartialEq, Eq, Debug)]
pub struct WireParts {
    pub body: Vec<u8>,
    pub ranging_bytes: [u8; 4],
}

fn magic_bytes() -> (r: [u8; 8])
    ensures
        r@ == magic(),
{
    let r: [u8; 8] = [76u8, 69u8, 68u8, 115u8, 119u8, 97u8, 114u8, 109u8];
    assert(r@ =~= magic());
    r
}

/// Appends `src` to `out`.
fn push_all(out: &mut Vec<u8>, src: &[u8])
    ensures
        final(out)@ == old(out)@ + src@,
{
    let ghost start = out@;
    let mut i: usize = 0;
    while i < src.len()
        invariant
            i <= src@.len(),
            out@ == start + src@.subrange(0, i as int),
        decreases src@.len() - i,
    {
        out.push(src[i]);
        i = i + 1;
        assert(out@ =~= start + src@.subrange(0, i as int));
    }
    assert(src@.subrange(0, src@.len() as int) =~= src@);
}

/// Lays `body` out on the wire: the marker, the body, then `trailer`.
pub fn frame_bytes(body: &[u8], trailer: [u8; 4]) -> (r: Vec<u8>)
    ensures
        r@ == framed(body@, trailer@),
{
    let marker = magic_bytes();
    let mut out: Vec<u8> = Vec::new();
    push_all(&mut out, &marker);
    push_all(&mut out, body);
    push_all(&mut out, &trailer);
    out
}

/// Takes a received buffer apart into its body and trailer.
///
/// A buffer of at least eight bytes that does not open with the marker is
/// refused with the eight bytes found; one that is shorter than the marker, or
/// opens with it but has no room for the trailer, is too short. The body is not
/// looked at.
pub fn split_buffer(buf: &[u8]) -> (r: Result<WireParts, FrameError>)
    ensures
        r is Ok <==> (has_magic(buf@) && buf@.len() >= 12),
        r is Ok ==> r->Ok_0.body@ == body_of(buf@) && r->Ok_0.ranging_bytes@ == trailer_of(buf@),
        r matches Err(FrameError::NoMagicString(p)) <==> (buf@.len() >= 8 && !has_magic(buf@)),
        r matches Err(FrameError::NoMagicString(p)) ==> p@ == buf@.subrange(0, 8),
        r matches Err(FrameError::BufferTooShort) <==> (buf@.len() < 8 || (has_magic(buf@)
            && buf@.len() < 12)),
        !(r matches Err(FrameError::SerializeError)),
{
    if buf.len() < MAGIC_LEN {
        return Err(FrameError::BufferTooShort);
    }
    let marker = magic_bytes();
    let mut i: usize = 0;
    while i < MAGIC_LEN
        invariant
            buf@.len() >= 8,
            i <= 8,
            marker@ == magic(),
            forall|j: int| 0 <= j < i ==> buf@[j] == magic()[j],
        decreases 8 - i,
    {
        if buf[i] != marker[i] {
            let mut prefix: Vec<u8> = Vec::new();
            push_all(&mut prefix, &buf[0..MAGIC_LEN]);
            assert(buf@.subrange(0, 8)[i as int] != magic()[i as int]);
            return Err(FrameError::NoMagicString(prefix));
        }
        i = i + 1;
    }
    assert(buf@.subrange(0, 8) =~= magic());
    if buf.len() < MIN_BUFFER_LEN {
        return Err(FrameError::BufferTooShort);
    }
    let n = buf.len();
    let mut body: Vec<u8> = Vec::new();
    push_all(&mut body, &buf[MAGIC_LEN..n - TRAILER_LEN]);
    let ranging_bytes: [u8; 4] = [buf[n - 4], buf[n - 3], buf[n - 2], buf[n - 1]];
    assert(ranging_bytes@ =~= trailer_of(buf@));
    Ok(WireParts { body, ranging_bytes })
}

/// Splitting a framed buffer gives back its body and trailer.
pub proof fn lemma_split_framed(body: Seq<u8>, trailer: Seq<u8>)
    requires
        trailer.len() == 4,
    ensures
        has_magic(framed(body, trailer)),
        framed(body, trailer).len() >= 12,
        body_of(framed(body, trailer)) == body,
        trailer_of(framed(body, trailer)) == trailer,
{
    let buf = framed(body, trailer);
    assert(buf.subrange(0, 8) =~= magic());
    assert(body_of(buf) =~= body);
    assert(trailer_of(buf) =~= trailer);
}

} // verus!
