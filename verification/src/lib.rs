//! A streaming qlog trace writer with cross-event correlation.
//!
//! The library models the in-memory core of a qlog (JSON text sequence)
//! diagnostic trace writer for a QUIC transport stack and a media-over-QUIC
//! transfer protocol: the event envelope, the payload catalogue, the header
//! record, and the correlation engine that buffers, patches and completes
//! events before they are handed to an output channel.

use vstd::prelude::*;

pub mod events;
pub mod laws;
pub mod logfile;
pub mod moq;
pub mod quic_10;
pub mod util;
pub mod writer;

verus! {

/// Wraps a record's serialized text in JSON text sequence framing:
/// one record separator byte before the UTF-8 payload, one line feed after.
pub fn frame_record(payload: &[u8]) -> (r: Vec<u8>)
    ensures
        r@ == seq![0x1eu8] + payload@ + seq![0x0au8],
{
    let mut out: Vec<u8> = Vec::new();
    out.push(0x1eu8);
    let mut i: usize = 0;
    while i < payload.len()
        invariant
            i <= payload.len(),
            out@ == seq![0x1eu8] + payload@.subrange(0, i as int),
        decreases payload.len() - i,
    {
        out.push(payload[i]);
        assert(out@ == seq![0x1eu8] + payload@.subrange(0, i + 1 as int));
        i = i + 1;
    }
    assert(payload@.subrange(0, payload@.len() as int) == payload@);
    out.push(0x0au8);
    assert(out@ == seq![0x1eu8] + payload@ + seq![0x0au8]);
    out
}

} // verus!
