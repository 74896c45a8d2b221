//! Deterministic byte framing shared by the packet commitment, the packet
//! payload and the consensus-state wire codec: eight little-endian length
//! bytes followed by the payload bytes.

use vstd::bytes::{spec_u64_to_le_bytes, u64_to_le_bytes};
use vstd::prelude::*;

verus! {

/// The UTF-8 encoding of a string's characters.
pub open spec fn utf8_bytes(s: Seq<char>) -> Seq<u8> {
    vstd::utf8::encode_utf8(s)
}

/// A length-prefixed frame: eight little-endian length bytes, then the bytes.
pub open spec fn spec_frame(b: Seq<u8>) -> Seq<u8> {
    spec_u64_to_le_bytes(b.len() as u64) + b
}

/// Appends the eight little-endian bytes of `x`.
pub fn push_u64(out: &mut Vec<u8>, x: u64)
    ensures
        final(out)@ == old(out)@ + spec_u64_to_le_bytes(x),
{
    let mut word = u64_to_le_bytes(x);
    out.append(&mut word);
}

/// Appends a length-prefixed byte string.
pub fn push_frame(out: &mut Vec<u8>, b: &[u8])
    ensures
        final(out)@ == old(out)@ + spec_frame(b@),
{
    push_u64(out, b.len() as u64);
    let ghost mid = out@;
    out.extend_from_slice(b);
    proof {
        assert forall|i: int| 0 <= i < out@.len() implies out@[i] == (mid + b@)[i] by {
            if i >= mid.len() {
                assert(vstd::pervasive::cloned::<u8>(b@[i - mid.len()], out@[i]));
            }
        }
        assert(out@ =~= old(out)@ + spec_frame(b@));
    }
}

/// Appends the length-prefixed UTF-8 bytes of a string.
pub fn push_str_frame(out: &mut Vec<u8>, s: &str)
    ensures
        final(out)@ == old(out)@ + spec_frame(utf8_bytes(s@)),
{
    push_frame(out, s.as_bytes());
}

} // verus!
