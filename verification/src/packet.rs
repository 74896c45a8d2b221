//! The packet: a single cross-chain message unit, and the deterministic
//! byte commitment that records its send on chain.

use crate::codec::{push_frame, push_str_frame, push_u64, spec_frame, utf8_bytes};
use crate::timestamp::{Height, TimeoutHeight, Timestamp};
use vstd::bytes::spec_u64_to_le_bytes;
use vstd::prelude::*;

verus! {

/// A single cross-chain message unit, uniquely identified by
/// (source port, source channel, sequence).
#[derive(Debug)]
pub struct Packet {
    pub seq_on_a: u64,
    pub port_id_on_a: String,
    pub chan_id_on_a: String,
    pub port_id_on_b: String,
    pub chan_id_on_b: String,
    pub data: Vec<u8>,
    pub timeout_height_on_b: TimeoutHeight,
    pub timeout_timestamp_on_b: Timestamp,
}

/// Byte encoding of a timeout height: a tag byte, then the two height words.
pub open spec fn spec_timeout_height_bytes(t: TimeoutHeight) -> Seq<u8> {
    match t {
        TimeoutHeight::Never => seq![0u8] + spec_u64_to_le_bytes(0) + spec_u64_to_le_bytes(0),
        TimeoutHeight::At(h) => seq![1u8] + spec_u64_to_le_bytes(h.revision_number)
            + spec_u64_to_le_bytes(h.revision_height),
    }
}

/// The commitment bytes for a packet, given by its field values: the
/// sequence, then the four identifiers and the payload, each length
/// prefixed, then the timeout fields.
pub open spec fn spec_commitment_v(
    seq: u64,
    port_a: Seq<char>,
    chan_a: Seq<char>,
    port_b: Seq<char>,
    chan_b: Seq<char>,
    data: Seq<u8>,
    timeout_height: TimeoutHeight,
    timeout_timestamp: Timestamp,
) -> Seq<u8> {
    spec_u64_to_le_bytes(seq) + spec_frame(utf8_bytes(port_a)) + spec_frame(utf8_bytes(chan_a))
        + spec_frame(utf8_bytes(port_b)) + spec_frame(utf8_bytes(chan_b)) + spec_frame(data)
        + spec_timeout_height_bytes(timeout_height) + spec_u64_to_le_bytes(
        timeout_timestamp.nanoseconds,
    )
}

/// The commitment bytes of a packet.
pub open spec fn spec_packet_commitment(p: Packet) -> Seq<u8> {
    spec_commitment_v(
        p.seq_on_a,
        p.port_id_on_a@,
        p.chan_id_on_a@,
        p.port_id_on_b@,
        p.chan_id_on_b@,
        p.data@,
        p.timeout_height_on_b,
        p.timeout_timestamp_on_b,
    )
}

/// Appends the encoding of a timeout height.
fn push_timeout_height(out: &mut Vec<u8>, t: &TimeoutHeight)
    ensures
        final(out)@ == old(out)@ + spec_timeout_height_bytes(*t),
{
    match t {
        TimeoutHeight::Never => {
            out.push(0u8);
            push_u64(out, 0);
            push_u64(out, 0);
        },
        TimeoutHeight::At(h) => {
            out.push(1u8);
            push_u64(out, h.revision_number);
            push_u64(out, h.revision_height);
        },
    }
    proof {
        assert(out@ =~= old(out)@ + spec_timeout_height_bytes(*t));
    }
}

/// Computes the commitment written to chain state when a packet is sent.
pub fn compute_packet_commitment(p: &Packet) -> (r: Vec<u8>)
    ensures
        r@ == spec_packet_commitment(*p),
{
    let mut out: Vec<u8> = Vec::new();
    push_u64(&mut out, p.seq_on_a);
    push_str_frame(&mut out, p.port_id_on_a.as_str());
    push_str_frame(&mut out, p.chan_id_on_a.as_str());
    push_str_frame(&mut out, p.port_id_on_b.as_str());
    push_str_frame(&mut out, p.chan_id_on_b.as_str());
    push_frame(&mut out, p.data.as_slice());
    push_timeout_height(&mut out, &p.timeout_height_on_b);
    push_u64(&mut out, p.timeout_timestamp_on_b.nanoseconds);
    proof {
        assert(out@ =~= spec_packet_commitment(*p));
    }
    out
}

} // verus!
