//! The mock light-client's consensus state: a counterparty chain's claim
//! at one height, with a verified wire codec for its envelope. The mock
//! client demonstrates that the capability contract, not the content, is
//! what the rest of the system depends on: its commitment root is a fixed
//! placeholder.

use crate::errors::ClientError;
use crate::timestamp::{Height, Timestamp};
use vstd::bytes::{
    lemma_auto_spec_u64_to_from_le_bytes, spec_u64_from_le_bytes, spec_u64_to_le_bytes,
    u64_from_le_bytes, u64_to_le_bytes,
};
use vstd::prelude::*;
use vstd::slice::slice_subrange;

verus! {

/// A header of the mock chain: just a height and a timestamp.
#[derive(Clone, Copy, Debug, PartialEq, Eq, Structural)]
pub struct MockHeader {
    pub height: Height,
    pub timestamp: Timestamp,
}

/// The wire form of a mock consensus state: an optional header. Decoding
/// into the domain type fails when the header is absent.
#[derive(Clone, Copy, Debug, PartialEq, Eq)]
pub struct RawMockConsensusState {
    pub header: Option<MockHeader>,
}

/// A type-tagged envelope carrying an encoded value, the uniform unit of
/// the persisted representation.
#[derive(Debug)]
pub struct Any {
    pub type_url: String,
    pub value: Vec<u8>,
}

/// An opaque commitment to a chain's application state at a height.
#[derive(Debug, PartialEq, Eq)]
pub struct CommitmentRoot {
    pub bytes: Vec<u8>,
}

/// The wire tag of the mock consensus state.
pub open spec fn spec_mock_consensus_state_type_url() -> Seq<char> {
    "/ibc.mock.ConsensusState"@
}

/// The wire tag of the mock consensus state.
pub fn mock_consensus_state_type_url() -> (r: String)
    ensures
        r@ == spec_mock_consensus_state_type_url(),
{
    "/ibc.mock.ConsensusState".to_owned()
}

/// A byte string is a consensus-state encoding: a single zero byte for an
/// absent header, or a one byte followed by the three header words.
pub open spec fn raw_bytes_valid(b: Seq<u8>) -> bool {
    (b.len() == 1 && b[0] == 0) || (b.len() == 25 && b[0] == 1)
}

/// The value a valid byte string encodes.
pub open spec fn spec_decoded_raw(b: Seq<u8>) -> RawMockConsensusState {
    if b[0] == 0 {
        RawMockConsensusState { header: None }
    } else {
        RawMockConsensusState {
            header: Some(
                MockHeader {
                    height: Height {
                        revision_number: spec_u64_from_le_bytes(b.subrange(1, 9)),
                        revision_height: spec_u64_from_le_bytes(b.subrange(9, 17)),
                    },
                    timestamp: Timestamp { nanoseconds: spec_u64_from_le_bytes(b.subrange(17, 25)) },
                },
            ),
        }
    }
}

/// The canonical encoding of a wire value.
pub open spec fn spec_encoded_raw(r: RawMockConsensusState) -> Seq<u8> {
    match r.header {
        None => seq![0u8],
        Some(h) => seq![1u8] + spec_u64_to_le_bytes(h.height.revision_number)
            + spec_u64_to_le_bytes(h.height.revision_height) + spec_u64_to_le_bytes(
            h.timestamp.nanoseconds,
        ),
    }
}

impl RawMockConsensusState {
    /// Encodes the wire value into its canonical bytes.
    pub fn encode_vec(&self) -> (r: Vec<u8>)
        ensures
            r@ == spec_encoded_raw(*self),
    {
        let mut out: Vec<u8> = Vec::new();
        match &self.header {
            None => {
                out.push(0u8);
                proof {
                    assert(out@ =~= spec_encoded_raw(*self));
                }
            },
            Some(h) => {
                out.push(1u8);
                crate::codec::push_u64(&mut out, h.height.revision_number);
                crate::codec::push_u64(&mut out, h.height.revision_height);
                crate::codec::push_u64(&mut out, h.timestamp.nanoseconds);
                proof {
                    assert(out@ =~= spec_encoded_raw(*self));
                }
            },
        }
        out
    }

    /// Decodes a byte string, failing on anything that is not a canonical
    /// consensus-state encoding.
    pub fn decode(bytes: &[u8]) -> (r: Result<RawMockConsensusState, ClientError>)
        ensures
            raw_bytes_valid(bytes@) ==> (r matches Ok(raw) && raw == spec_decoded_raw(bytes@)),
            !raw_bytes_valid(bytes@) ==> (r matches Err(ClientError::DecodingFailure { description })
                && description@ == "invalid mock consensus state bytes"@),
    {
        if bytes.len() == 1 && *vstd::slice::slice_index_get(bytes, 0) == 0 {
            Ok(RawMockConsensusState { header: None })
        } else if bytes.len() == 25 && *vstd::slice::slice_index_get(bytes, 0) == 1 {
            let revision_number = u64_from_le_bytes(slice_subrange(bytes, 1, 9));
            let revision_height = u64_from_le_bytes(slice_subrange(bytes, 9, 17));
            let nanoseconds = u64_from_le_bytes(slice_subrange(bytes, 17, 25));
            Ok(
                RawMockConsensusState {
                    header: Some(
                        MockHeader {
                            height: Height { revision_number, revision_height },
                            timestamp: Timestamp { nanoseconds },
                        },
                    ),
                },
            )
        } else {
            Err(
                ClientError::DecodingFailure {
                    description: "invalid mock consensus state bytes".to_owned(),
                },
            )
        }
    }
}

/// Law, one direction of the codec round trip: every wire value's
/// canonical encoding is valid and decodes back to the same value.
pub proof fn lemma_raw_codec_round_trip(r: RawMockConsensusState)
    ensures
        raw_bytes_valid(spec_encoded_raw(r)),
        spec_decoded_raw(spec_encoded_raw(r)) == r,
{
    lemma_auto_spec_u64_to_from_le_bytes();
    match r.header {
        None => {
            assert(spec_encoded_raw(r).len() == 1);
        },
        Some(h) => {
            let b = spec_encoded_raw(r);
            assert(b.len() == 25);
            assert(b[0] == 1);
            assert(b.subrange(1, 9) =~= spec_u64_to_le_bytes(h.height.revision_number));
            assert(b.subrange(9, 17) =~= spec_u64_to_le_bytes(h.height.revision_height));
            assert(b.subrange(17, 25) =~= spec_u64_to_le_bytes(h.timestamp.nanoseconds));
        },
    }
}

/// Law, the other direction of the codec round trip: decoding a valid
/// byte string and re-encoding the result reproduces the same bytes, so
/// the encoding is canonical.
pub proof fn lemma_raw_codec_complete(b: Seq<u8>)
    requires
        raw_bytes_valid(b),
    ensures
        spec_encoded_raw(spec_decoded_raw(b)) == b,
{
    lemma_auto_spec_u64_to_from_le_bytes();
    if b[0] == 0 {
        assert(spec_encoded_raw(spec_decoded_raw(b)) =~= b);
    } else {
        assert(b.subrange(1, 9).len() == 8);
        assert(b.subrange(9, 17).len() == 8);
        assert(b.subrange(17, 25).len() == 8);
        assert(spec_encoded_raw(spec_decoded_raw(b)) =~= b);
    }
}

/// A single light-client's view of the mock counterparty chain at one
/// height: immutable once constructed.
#[derive(Clone, Copy, Debug, PartialEq, Eq, Structural)]
pub struct MockConsensusState {
    pub header: MockHeader,
}

impl MockConsensusState {
    /// Wraps a header as a consensus state.
    pub fn new(header: MockHeader) -> (r: MockConsensusState)
        ensures
            r.header == header,
    {
        MockConsensusState { header }
    }

    /// The timestamp of the consensus claim.
    pub fn timestamp(&self) -> (r: Timestamp)
        ensures
            r == self.header.timestamp,
    {
        self.header.timestamp
    }

    /// The commitment root of the claim. The mock wire form carries no
    /// root, so this is the fixed placeholder single zero byte.
    pub fn root(&self) -> (r: CommitmentRoot)
        ensures
            r.bytes@ == seq![0u8],
    {
        let mut bytes: Vec<u8> = Vec::new();
        bytes.push(0u8);
        proof {
            assert(bytes@ =~= seq![0u8]);
        }
        CommitmentRoot { bytes }
    }

    /// Converts from the wire form; fails exactly when the header is
    /// absent.
    pub fn try_from_raw(raw: RawMockConsensusState) -> (r: Result<MockConsensusState, ClientError>)
        ensures
            match raw.header {
                Some(h) => r matches Ok(cs) && cs.header == h,
                None => r matches Err(ClientError::MissingRawConsensusState),
            },
    {
        match raw.header {
            Some(h) => Ok(MockConsensusState { header: h }),
            None => Err(ClientError::MissingRawConsensusState),
        }
    }

    /// Converts into the wire form; the header is always present.
    pub fn into_raw(self) -> (r: RawMockConsensusState)
        ensures
            r.header == Some(self.header),
    {
        RawMockConsensusState { header: Some(self.header) }
    }

    /// Decodes a consensus state from a type-tagged envelope: an unknown
    /// tag, malformed bytes and a missing header each fail with their own
    /// error, and nothing else fails.
    pub fn try_from_any(raw: &Any) -> (r: Result<MockConsensusState, ClientError>)
        ensures
            raw.type_url@ != spec_mock_consensus_state_type_url() ==> (r matches Err(
                ClientError::UnknownConsensusStateType { consensus_state_type },
            ) && consensus_state_type@ == raw.type_url@),
            raw.type_url@ == spec_mock_consensus_state_type_url() && !raw_bytes_valid(raw.value@)
                ==> (r matches Err(ClientError::DecodingFailure { description }) && description@
                == "invalid mock consensus state bytes"@),
            raw.type_url@ == spec_mock_consensus_state_type_url() && raw_bytes_valid(raw.value@)
                ==> match spec_decoded_raw(raw.value@).header {
                Some(h) => r matches Ok(cs) && cs.header == h,
                None => r matches Err(ClientError::MissingRawConsensusState),
            },
    {
        let url = mock_consensus_state_type_url();
        if raw.type_url == url {
            match RawMockConsensusState::decode(raw.value.as_slice()) {
                Ok(decoded) => MockConsensusState::try_from_raw(decoded),
                Err(e) => Err(e),
            }
        } else {
            Err(
                ClientError::UnknownConsensusStateType {
                    consensus_state_type: raw.type_url.clone(),
                },
            )
        }
    }

    /// Encodes a consensus state into its type-tagged envelope.
    pub fn into_any(self) -> (r: Any)
        ensures
            r.type_url@ == spec_mock_consensus_state_type_url(),
            r.value@ == spec_encoded_raw(RawMockConsensusState { header: Some(self.header) }),
    {
        let raw = self.into_raw();
        Any { type_url: mock_consensus_state_type_url(), value: raw.encode_vec() }
    }
}

/// A type-tagged envelope is a valid consensus-state wire value: known
/// tag, well-formed bytes, header present.
pub open spec fn any_wire_valid(a: Any) -> bool {
    &&& a.type_url@ == spec_mock_consensus_state_type_url()
    &&& raw_bytes_valid(a.value@)
    &&& spec_decoded_raw(a.value@).header is Some
}

/// Law: round trip through the envelope. Decoding a valid wire value
/// succeeds, and re-encoding the decoded state reproduces the envelope:
/// the same type tag and exactly the same bytes.
pub proof fn lemma_consensus_state_round_trip(a: Any)
    requires
        any_wire_valid(a),
    ensures
        spec_encoded_raw(
            RawMockConsensusState { header: Some(spec_decoded_raw(a.value@).header->Some_0) },
        ) == a.value@,
{
    lemma_raw_codec_complete(a.value@);
    assert(RawMockConsensusState { header: Some(spec_decoded_raw(a.value@).header->Some_0) }
        == spec_decoded_raw(a.value@));
}

/// The closed set of consensus-state implementations, dispatched by an
/// exhaustive match: the shape of code the dispatch generator emits.
#[derive(Clone, Copy, Debug)]
pub enum AnyConsensusState {
    Mock(MockConsensusState),
}

impl AnyConsensusState {
    /// Routes `timestamp` to the variant's implementation.
    pub fn timestamp(&self) -> (r: Timestamp)
        ensures
            match self {
                AnyConsensusState::Mock(cs) => r == cs.header.timestamp,
            },
    {
        match self {
            AnyConsensusState::Mock(cs) => cs.timestamp(),
        }
    }

    /// Routes `root` to the variant's implementation.
    pub fn root(&self) -> (r: CommitmentRoot)
        ensures
            match self {
                AnyConsensusState::Mock(_) => r.bytes@ == seq![0u8],
            },
    {
        match self {
            AnyConsensusState::Mock(cs) => cs.root(),
        }
    }
}

} // verus!
