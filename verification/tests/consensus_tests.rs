use ibc_core::consensus_state::{
    mock_consensus_state_type_url, Any, AnyConsensusState, MockConsensusState, MockHeader,
    RawMockConsensusState,
};
use ibc_core::errors::ClientError;
use ibc_core::timestamp::{Height, Timestamp};

fn sample_header() -> MockHeader {
    MockHeader {
        height: Height::new(1, 42),
        timestamp: Timestamp::from_nanoseconds(1_672_531_200_000_000_000),
    }
}

#[test]
fn consensus_state_accessors() {
    let cs = MockConsensusState::new(sample_header());
    assert_eq!(cs.timestamp().nanoseconds(), 1_672_531_200_000_000_000);
    assert_eq!(cs.root().bytes, vec![0u8]);
}

#[test]
fn raw_encoding_is_the_documented_bytes() {
    let raw = RawMockConsensusState { header: Some(sample_header()) };
    let mut expected: Vec<u8> = vec![1u8];
    expected.extend_from_slice(&1u64.to_le_bytes());
    expected.extend_from_slice(&42u64.to_le_bytes());
    expected.extend_from_slice(&1_672_531_200_000_000_000u64.to_le_bytes());
    assert_eq!(raw.encode_vec(), expected);

    let empty = RawMockConsensusState { header: None };
    assert_eq!(empty.encode_vec(), vec![0u8]);
}

#[test]
fn raw_codec_round_trips() {
    let raw = RawMockConsensusState { header: Some(sample_header()) };
    let bytes = raw.encode_vec();
    let back = RawMockConsensusState::decode(&bytes).unwrap();
    assert_eq!(back, raw);
    // And the other direction: decoded bytes re-encode identically.
    assert_eq!(back.encode_vec(), bytes);
}

#[test]
fn any_round_trips_for_valid_wire_values() {
    let cs = MockConsensusState::new(sample_header());
    let any = cs.into_any();
    assert_eq!(any.type_url, mock_consensus_state_type_url());
    let back = MockConsensusState::try_from_any(&any).unwrap();
    assert_eq!(back, cs);
    let re = back.into_any();
    assert_eq!(re.type_url, any.type_url);
    assert_eq!(re.value, any.value);
}

#[test]
fn missing_header_fails_with_missing_raw_consensus_state() {
    let raw = RawMockConsensusState { header: None };
    assert!(matches!(
        MockConsensusState::try_from_raw(raw),
        Err(ClientError::MissingRawConsensusState)
    ));
    let any = Any { type_url: mock_consensus_state_type_url(), value: raw.encode_vec() };
    assert!(matches!(
        MockConsensusState::try_from_any(&any),
        Err(ClientError::MissingRawConsensusState)
    ));
}

#[test]
fn unknown_type_tag_fails_with_unknown_consensus_state_type() {
    let cs = MockConsensusState::new(sample_header());
    let mut any = cs.into_any();
    any.type_url = "/ibc.other.ConsensusState".to_string();
    match MockConsensusState::try_from_any(&any) {
        Err(ClientError::UnknownConsensusStateType { consensus_state_type }) => {
            assert_eq!(consensus_state_type, "/ibc.other.ConsensusState");
        }
        other => panic!("expected an unknown-type error, got {:?}", other),
    }
}

#[test]
fn malformed_bytes_fail_with_decoding_failure() {
    let any = Any { type_url: mock_consensus_state_type_url(), value: vec![9, 9, 9] };
    assert!(matches!(
        MockConsensusState::try_from_any(&any),
        Err(ClientError::DecodingFailure { .. })
    ));
    assert!(matches!(
        RawMockConsensusState::decode(&[2u8]),
        Err(ClientError::DecodingFailure { .. })
    ));
}

#[test]
fn closed_set_dispatch_routes_to_the_mock_client() {
    let cs = AnyConsensusState::Mock(MockConsensusState::new(sample_header()));
    assert_eq!(cs.timestamp().nanoseconds(), 1_672_531_200_000_000_000);
    assert_eq!(cs.root().bytes, vec![0u8]);
}
