//! Raw pass-through framing for the wire adapter.
//!
//! The RPC transport's codec abstraction expects compiled message types; the
//! engine sidesteps it with a codec that carries already-encoded protobuf
//! bytes verbatim.  The two functions here are the computational halves of
//! that codec: the unverified transport glue copies their results into and
//! out of the transport's frame buffers without interpreting them.

use vstd::prelude::*;

verus! {

/// What encoding puts into the outbound frame: the bytes themselves,
/// verbatim.
pub open spec fn frame_of(item: Seq<u8>) -> Seq<u8> {
    item
}

/// What decoding an inbound frame yields: "no value" for an empty frame,
/// otherwise the payload verbatim.
pub open spec fn decoded_of(frame: Seq<u8>) -> Option<Seq<u8>> {
    if frame.len() == 0 {
        None
    } else {
        Some(frame)
    }
}

/// Encodes an outbound frame: the already-encoded request bytes are copied
/// into the frame verbatim, with no re-encoding.
pub fn encode_frame(item: &[u8]) -> (frame: Vec<u8>)
    ensures
        frame@ == frame_of(item@),
{
    let mut frame: Vec<u8> = Vec::new();
    let mut i: usize = 0;
    while i < item.len()
        invariant
            i <= item@.len(),
            frame@ == item@.subrange(0, i as int),
        decreases item@.len() - i,
    {
        frame.push(item[i]);
        i = i + 1;
        proof {
            assert(frame@ =~= item@.subrange(0, i as int));
        }
    }
    proof {
        assert(frame@ =~= item@);
    }
    frame
}

/// Decodes an inbound frame: the payload is copied out verbatim.  An empty
/// frame decodes to "no value" rather than an error, since a final empty
/// frame is a normal low-level transport occurrence distinct from an
/// RPC-level failure.
pub fn decode_frame(src: &[u8]) -> (r: Option<Vec<u8>>)
    ensures
        r is None <==> decoded_of(src@) is None,
        r matches Some(buf) ==> decoded_of(src@) == Some(buf@),
{
    if src.len() == 0 {
        None
    } else {
        Some(encode_frame(src))
    }
}

/// The wire adapter performs no interpretation of the bytes it carries:
/// encoding any byte sequence and then decoding the resulting frame returns
/// the original bytes unchanged, except that an empty sequence produces an
/// empty frame, which decodes to "no value", not an error.
pub proof fn lemma_frame_round_trip(item: Seq<u8>)
    ensures
        item.len() > 0 ==> decoded_of(frame_of(item)) == Some(item),
        item.len() == 0 ==> decoded_of(frame_of(item)) is None,
{
}

} // verus!
