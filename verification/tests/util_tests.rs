use ibc_core::denom::{denom_eq, is_receiver_chain_source, is_sender_chain_source, PrefixedDenom, TracePrefix};
use ibc_core::dispatch::{client_state_macro_derive, DeriveData, DeriveError, DeriveInput, HostOpts};
use ibc_core::packet::{compute_packet_commitment, Packet};
use ibc_core::timestamp::{Height, TimeoutHeight, Timestamp};
use ibc_core::utils::{year_2023, LazyLock};

fn hop(port: &str, chan: &str) -> TracePrefix {
    TracePrefix { port_id: port.to_string(), channel_id: chan.to_string() }
}

#[test]
fn year_2023_is_the_fixed_nanosecond_count() {
    // Sun Jan 01 2023 00:00:00 GMT+0000, in nanoseconds.
    assert_eq!(year_2023().nanoseconds(), 1_672_531_200 * 1_000_000_000);
}

#[test]
fn lazy_lock_computes_once_and_returns_the_value() {
    let lock: LazyLock<u64, fn() -> u64> = LazyLock::new(|| 41 + 1);
    assert_eq!(*lock.get(), 42);
    assert_eq!(*lock.get(), 42);
}

#[test]
fn lazy_lock_holds_composite_values() {
    let lock: LazyLock<Vec<u8>, fn() -> Vec<u8>> = LazyLock::new(|| vec![0u8]);
    assert_eq!(lock.get().as_slice(), &[0u8]);
}

#[test]
fn sender_is_source_for_native_and_foreign_traces() {
    let port = "transfer".to_string();
    let chan = "channel-0".to_string();
    // Empty trace: a native denomination, the sender chain is the source.
    let native = PrefixedDenom { trace_path: vec![], base_denom: "samoleans".to_string() };
    assert!(is_sender_chain_source(&port, &chan, &native));
    assert!(!is_receiver_chain_source(&port, &chan, &native));
    // The trace begins with the outbound leg: the receiver is the source.
    let returning = PrefixedDenom {
        trace_path: vec![hop("transfer", "channel-0")],
        base_denom: "uatom".to_string(),
    };
    assert!(!is_sender_chain_source(&port, &chan, &returning));
    assert!(is_receiver_chain_source(&port, &chan, &returning));
    // The trace begins with a different leg: the sender is the source.
    let foreign = PrefixedDenom {
        trace_path: vec![hop("transfer", "channel-7")],
        base_denom: "uatom".to_string(),
    };
    assert!(is_sender_chain_source(&port, &chan, &foreign));
}

#[test]
fn denom_equality_is_structural() {
    let a = PrefixedDenom {
        trace_path: vec![hop("transfer", "channel-0")],
        base_denom: "uatom".to_string(),
    };
    let b = PrefixedDenom {
        trace_path: vec![hop("transfer", "channel-0")],
        base_denom: "uatom".to_string(),
    };
    let c = PrefixedDenom {
        trace_path: vec![hop("transfer", "channel-1")],
        base_denom: "uatom".to_string(),
    };
    let d = PrefixedDenom { trace_path: vec![], base_denom: "uatom".to_string() };
    assert!(denom_eq(&a, &b));
    assert!(!denom_eq(&a, &c));
    assert!(!denom_eq(&a, &d));
}

fn frame(bytes: &[u8]) -> Vec<u8> {
    let mut out = (bytes.len() as u64).to_le_bytes().to_vec();
    out.extend_from_slice(bytes);
    out
}

#[test]
fn packet_commitment_is_the_documented_bytes() {
    let packet = Packet {
        seq_on_a: 5,
        port_id_on_a: "p".to_string(),
        chan_id_on_a: "c".to_string(),
        port_id_on_b: "q".to_string(),
        chan_id_on_b: "d".to_string(),
        data: vec![7, 8],
        timeout_height_on_b: TimeoutHeight::At(Height::new(1, 1000)),
        timeout_timestamp_on_b: Timestamp::from_nanoseconds(99),
    };
    let mut expected: Vec<u8> = 5u64.to_le_bytes().to_vec();
    expected.extend_from_slice(&frame(b"p"));
    expected.extend_from_slice(&frame(b"c"));
    expected.extend_from_slice(&frame(b"q"));
    expected.extend_from_slice(&frame(b"d"));
    expected.extend_from_slice(&frame(&[7, 8]));
    expected.push(1u8);
    expected.extend_from_slice(&1u64.to_le_bytes());
    expected.extend_from_slice(&1000u64.to_le_bytes());
    expected.extend_from_slice(&99u64.to_le_bytes());
    assert_eq!(compute_packet_commitment(&packet), expected);
}

#[test]
fn commitments_of_distinct_packets_differ() {
    let mut packet = Packet {
        seq_on_a: 1,
        port_id_on_a: "transfer".to_string(),
        chan_id_on_a: "channel-0".to_string(),
        port_id_on_b: "transfer".to_string(),
        chan_id_on_b: "channel-1".to_string(),
        data: vec![1, 2, 3],
        timeout_height_on_b: TimeoutHeight::Never,
        timeout_timestamp_on_b: Timestamp::from_nanoseconds(0),
    };
    let first = compute_packet_commitment(&packet);
    packet.seq_on_a = 2;
    let second = compute_packet_commitment(&packet);
    assert_ne!(first, second);
}

#[test]
fn derive_plans_dispatch_for_an_enumeration() {
    let input = DeriveInput {
        ident: "HostClientState".to_string(),
        data: DeriveData::Enumeration(vec!["Tendermint".to_string(), "Mock".to_string()]),
        host_opts: Some(HostOpts {
            client_state: "HostClientState".to_string(),
            consensus_state: "HostConsensusState".to_string(),
        }),
    };
    let plan = client_state_macro_derive(&input).unwrap();
    assert_eq!(plan.enum_ident, "HostClientState");
    assert_eq!(plan.client_state, "HostClientState");
    assert_eq!(plan.consensus_state, "HostConsensusState");
    assert_eq!(plan.variants, vec!["Tendermint".to_string(), "Mock".to_string()]);
}

#[test]
fn derive_refuses_a_struct() {
    let input = DeriveInput {
        ident: "NotAnEnumType".to_string(),
        data: DeriveData::Structure,
        host_opts: Some(HostOpts {
            client_state: "A".to_string(),
            consensus_state: "B".to_string(),
        }),
    };
    assert!(matches!(client_state_macro_derive(&input), Err(DeriveError::NotAnEnum)));
}

#[test]
fn derive_refuses_an_untagged_union() {
    let input = DeriveInput {
        ident: "NotAnEnumType".to_string(),
        data: DeriveData::RawUnion,
        host_opts: Some(HostOpts {
            client_state: "A".to_string(),
            consensus_state: "B".to_string(),
        }),
    };
    assert!(matches!(client_state_macro_derive(&input), Err(DeriveError::NotAnEnum)));
}

#[test]
fn derive_refuses_missing_host_metadata() {
    let input = DeriveInput {
        ident: "HostClientState".to_string(),
        data: DeriveData::Enumeration(vec!["Mock".to_string()]),
        host_opts: None,
    };
    assert!(matches!(
        client_state_macro_derive(&input),
        Err(DeriveError::MissingHostAttribute)
    ));
}

#[test]
fn timeout_expiry_edges() {
    let latest = Height::new(1, 100);
    assert!(TimeoutHeight::At(Height::new(1, 100)).has_expired(&latest));
    assert!(TimeoutHeight::At(Height::new(1, 99)).has_expired(&latest));
    assert!(!TimeoutHeight::At(Height::new(1, 101)).has_expired(&latest));
    assert!(!TimeoutHeight::At(Height::new(2, 1)).has_expired(&latest));
    assert!(!TimeoutHeight::Never.has_expired(&latest));
}
