//! Wire framing: the transport carries a stream of frames, each a 4-byte
//! unsigned length prefix followed by that many bytes of JSON payload. The
//! prefix is read in the byte order of the host the compositor runs on; this
//! engine fixes little-endian, the native order of every platform it
//! targets. The blocking reads that fill the buffer belong to the
//! surrounding application; splitting frames out of the buffered bytes is
//! done here.

use vstd::prelude::*;
use vstd::bytes::{spec_u32_from_le_bytes, u32_from_le_bytes};
use vstd::slice::{slice_subrange, slice_to_vec};

verus! {

/// What splitting one frame off the front of a buffer yields: the payload
/// and the count of bytes consumed, or nothing while the buffer holds less
/// than one whole frame.
pub open spec fn take_frame_spec(buf: Seq<u8>) -> Option<(Seq<u8>, int)> {
    if buf.len() < 4 {
        None
    } else {
        let l = spec_u32_from_le_bytes(buf.subrange(0, 4)) as int;
        if 4 + l <= buf.len() {
            Some((buf.subrange(4, 4 + l), 4 + l))
        } else {
            None
        }
    }
}

/// Split one length-prefixed frame off the front of `buf`: the payload and
/// how many bytes of `buf` it consumed, or `None` while the buffer holds
/// less than one whole frame. No length bound is enforced: a corrupted
/// prefix merely demands more bytes than the buffer has yet.
pub fn take_frame(buf: &[u8]) -> (r: Option<(Vec<u8>, usize)>)
    ensures
        match (r, take_frame_spec(buf@)) {
            (Some((p, c)), Some((ps, cs))) => p@ == ps && c as int == cs,
            (None, None) => true,
            _ => false,
        },
{
    if buf.len() < 4 {
        return None;
    }
    let prefix = slice_subrange(buf, 0, 4);
    let l = u32_from_le_bytes(prefix) as usize;
    if l > buf.len() - 4 {
        return None;
    }
    let payload_slice = slice_subrange(buf, 4, 4 + l);
    let payload = slice_to_vec(payload_slice);
    Some((payload, 4 + l))
}

} // verus!
