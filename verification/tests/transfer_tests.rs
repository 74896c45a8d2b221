use ibc_core::channel::{ChannelEnd, ChannelState, Counterparty, Order};
use ibc_core::context::SendPacketContext;
use ibc_core::denom::{Coin, PrefixedDenom, TracePrefix};
use ibc_core::errors::{PacketError, TokenTransferError};
use ibc_core::events::Event;
use ibc_core::packet::Packet;
use ibc_core::send_packet::send_packet_validate;
use ibc_core::timestamp::{Height, TimeoutHeight, Timestamp};
use ibc_core::token::{TokenContext, TokenOp};
use ibc_core::transfer::{send_transfer, send_transfer_execute, send_transfer_validate, MsgTransfer, PacketData};
use ibc_core::utils::year_2023;

fn open_channel_end() -> ChannelEnd {
    ChannelEnd::new(
        ChannelState::Open,
        Order::Unordered,
        Counterparty {
            port_id: "transfer".to_string(),
            channel_id: Some("channel-1".to_string()),
        },
    )
}

fn fresh_send_ctx() -> SendPacketContext {
    let mut ctx = SendPacketContext::new(Height::new(1, 100), year_2023());
    let added = ctx.add_channel(
        "transfer".to_string(),
        "channel-0".to_string(),
        open_channel_end(),
    );
    assert!(added);
    ctx
}

fn native_denom() -> PrefixedDenom {
    PrefixedDenom {
        trace_path: Vec::new(),
        base_denom: "samoleans".to_string(),
    }
}

fn returning_denom() -> PrefixedDenom {
    PrefixedDenom {
        trace_path: vec![TracePrefix {
            port_id: "transfer".to_string(),
            channel_id: "channel-0".to_string(),
        }],
        base_denom: "uatom".to_string(),
    }
}

fn msg_with(denom: PrefixedDenom, amount: u64) -> MsgTransfer {
    MsgTransfer {
        port_id_on_a: "transfer".to_string(),
        chan_id_on_a: "channel-0".to_string(),
        packet_data: PacketData {
            token: Coin { denom, amount },
            sender: "alice".to_string(),
            receiver: "bob".to_string(),
            memo: "".to_string(),
        },
        timeout_height_on_b: TimeoutHeight::At(Height::new(1, 1000)),
        timeout_timestamp_on_b: Timestamp::from_nanoseconds(0),
    }
}

fn funded_token_ctx(denom: &PrefixedDenom, amount: u64) -> TokenContext {
    let mut tctx = TokenContext::new();
    assert!(tctx.add_escrow_account(
        "transfer".to_string(),
        "channel-0".to_string(),
        "escrow-acct".to_string(),
    ));
    tctx.set_balance(&"alice".to_string(), denom, amount);
    tctx
}

#[test]
fn burn_when_denom_carries_outbound_prefix() {
    // The denomination arrived through transfer/channel-0, so sending it
    // back out over that leg burns it. Drive the counter up to 5 first.
    let mut sctx = fresh_send_ctx();
    let denom = returning_denom();
    let mut tctx = funded_token_ctx(&denom, 1000);
    let alice = "alice".to_string();

    for _ in 0..4 {
        let msg = msg_with(returning_denom(), 25);
        assert!(send_transfer(&mut sctx, &mut tctx, &msg).is_ok());
    }
    let seq_before = sctx
        .get_next_sequence_send(&"transfer".to_string(), &"channel-0".to_string())
        .unwrap();
    assert_eq!(seq_before, 5);
    let balance_before = tctx.get_balance(&alice, &denom);

    let msg = msg_with(returning_denom(), 100);
    assert!(send_transfer(&mut sctx, &mut tctx, &msg).is_ok());

    // Sender's balance of that denomination decreased by 100 (burned).
    assert_eq!(tctx.get_balance(&alice, &denom), balance_before - 100);
    // Nothing was escrowed.
    assert_eq!(tctx.get_balance(&"escrow-acct".to_string(), &denom), 0);
    // The last operation is a burn of 100.
    match tctx.ops.last().unwrap() {
        TokenOp::Burn { account, amount, .. } => {
            assert_eq!(account, "alice");
            assert_eq!(*amount, 100);
        }
        other => panic!("expected a burn, got {:?}", other),
    }
    // Packet commitment stored for sequence 5.
    assert!(sctx
        .get_packet_commitment(&"transfer".to_string(), &"channel-0".to_string(), 5)
        .is_some());
    // Next sequence advanced to 6.
    let seq_after = sctx
        .get_next_sequence_send(&"transfer".to_string(), &"channel-0".to_string())
        .unwrap();
    assert_eq!(seq_after, 6);
    // A transfer event carrying amount 100 and the transferred denomination.
    let transfer_event = &sctx.events[sctx.events.len() - 2];
    match transfer_event {
        Event::Transfer { sender, receiver, denom, amount, .. } => {
            assert_eq!(sender, "alice");
            assert_eq!(receiver, "bob");
            assert_eq!(*amount, 100);
            assert_eq!(denom.base_denom, "uatom");
            assert_eq!(denom.trace_path.len(), 1);
        }
        other => panic!("expected a transfer event, got {:?}", other),
    }
    match &sctx.events[sctx.events.len() - 1] {
        Event::Message { module } => assert_eq!(module, "transfer"),
        other => panic!("expected a module message event, got {:?}", other),
    }
}

#[test]
fn escrow_when_denom_is_native() {
    // A native token (no matching prefix) is escrowed, not burned.
    let mut sctx = fresh_send_ctx();
    let denom = native_denom();
    let mut tctx = funded_token_ctx(&denom, 1000);
    let alice = "alice".to_string();
    let escrow = "escrow-acct".to_string();

    let msg = msg_with(native_denom(), 100);
    assert!(send_transfer(&mut sctx, &mut tctx, &msg).is_ok());

    // Escrow-account balance increased by 100 instead of a burn.
    assert_eq!(tctx.get_balance(&escrow, &denom), 100);
    assert_eq!(tctx.get_balance(&alice, &denom), 900);
    match tctx.ops.last().unwrap() {
        TokenOp::Escrow { from, to, amount, .. } => {
            assert_eq!(from, "alice");
            assert_eq!(to, "escrow-acct");
            assert_eq!(*amount, 100);
        }
        other => panic!("expected an escrow, got {:?}", other),
    }
    // All other effects identical: commitment for sequence 1, counter at 2.
    assert!(sctx
        .get_packet_commitment(&"transfer".to_string(), &"channel-0".to_string(), 1)
        .is_some());
    let seq_after = sctx
        .get_next_sequence_send(&"transfer".to_string(), &"channel-0".to_string())
        .unwrap();
    assert_eq!(seq_after, 2);
}

#[test]
fn validate_then_execute_assigns_consecutive_sequences() {
    let mut sctx = fresh_send_ctx();
    let mut tctx = funded_token_ctx(&native_denom(), 1000);
    for expected_seq in 1..=3u64 {
        let msg = msg_with(native_denom(), 10);
        assert!(send_transfer_validate(&sctx, &tctx, &msg).is_ok());
        assert!(send_transfer_execute(&mut sctx, &mut tctx, &msg).is_ok());
        assert!(sctx
            .get_packet_commitment(&"transfer".to_string(), &"channel-0".to_string(), expected_seq)
            .is_some());
    }
}

#[test]
fn missing_channel_fails_both_phases_and_moves_nothing() {
    let mut sctx = SendPacketContext::new(Height::new(1, 100), year_2023());
    let mut tctx = funded_token_ctx(&native_denom(), 1000);
    let msg = msg_with(native_denom(), 100);

    let v = send_transfer_validate(&sctx, &tctx, &msg);
    assert!(matches!(
        v,
        Err(TokenTransferError::Packet(PacketError::ChannelNotFound { .. }))
    ));
    let e = send_transfer_execute(&mut sctx, &mut tctx, &msg);
    assert!(matches!(
        e,
        Err(TokenTransferError::Packet(PacketError::ChannelNotFound { .. }))
    ));
    // No sequence counter exists, no balance moved, no operation logged.
    assert_eq!(tctx.get_balance(&"alice".to_string(), &native_denom()), 1000);
    assert!(tctx.ops.is_empty());
    assert!(sctx.events.is_empty());
}

#[test]
fn missing_counterparty_channel_fails_with_destination_not_found() {
    let mut sctx = SendPacketContext::new(Height::new(1, 100), year_2023());
    assert!(sctx.add_channel(
        "transfer".to_string(),
        "channel-0".to_string(),
        ChannelEnd::new(
            ChannelState::Open,
            Order::Unordered,
            Counterparty { port_id: "transfer".to_string(), channel_id: None },
        ),
    ));
    let mut tctx = funded_token_ctx(&native_denom(), 1000);
    let msg = msg_with(native_denom(), 100);
    let v = send_transfer_validate(&sctx, &tctx, &msg);
    assert!(matches!(
        v,
        Err(TokenTransferError::DestinationChannelNotFound { .. })
    ));
    let e = send_transfer_execute(&mut sctx, &mut tctx, &msg);
    assert!(matches!(
        e,
        Err(TokenTransferError::DestinationChannelNotFound { .. })
    ));
    assert!(tctx.ops.is_empty());
}

#[test]
fn closed_channel_rejects_validate() {
    let mut sctx = SendPacketContext::new(Height::new(1, 100), year_2023());
    assert!(sctx.add_channel(
        "transfer".to_string(),
        "channel-0".to_string(),
        ChannelEnd::new(
            ChannelState::Closed,
            Order::Unordered,
            Counterparty {
                port_id: "transfer".to_string(),
                channel_id: Some("channel-1".to_string()),
            },
        ),
    ));
    let tctx = funded_token_ctx(&native_denom(), 1000);
    let msg = msg_with(native_denom(), 100);
    let v = send_transfer_validate(&sctx, &tctx, &msg);
    assert!(matches!(
        v,
        Err(TokenTransferError::Packet(PacketError::ChannelNotOpen))
    ));
}

#[test]
fn expired_timeout_height_rejects_validate() {
    let sctx = fresh_send_ctx();
    let tctx = funded_token_ctx(&native_denom(), 1000);
    let mut msg = msg_with(native_denom(), 100);
    // The latest counterparty height is (1, 100); a bound at or below it
    // is already expired.
    msg.timeout_height_on_b = TimeoutHeight::At(Height::new(1, 100));
    let v = send_transfer_validate(&sctx, &tctx, &msg);
    assert!(matches!(
        v,
        Err(TokenTransferError::Packet(PacketError::LowPacketHeight))
    ));
}

#[test]
fn expired_timeout_timestamp_rejects_validate() {
    let sctx = fresh_send_ctx();
    let tctx = funded_token_ctx(&native_denom(), 1000);
    let mut msg = msg_with(native_denom(), 100);
    msg.timeout_timestamp_on_b = year_2023();
    let v = send_transfer_validate(&sctx, &tctx, &msg);
    assert!(matches!(
        v,
        Err(TokenTransferError::Packet(PacketError::LowPacketTimestamp))
    ));
}

#[test]
fn never_timeout_height_is_accepted() {
    let mut sctx = fresh_send_ctx();
    let mut tctx = funded_token_ctx(&native_denom(), 1000);
    let mut msg = msg_with(native_denom(), 100);
    msg.timeout_height_on_b = TimeoutHeight::Never;
    assert!(send_transfer(&mut sctx, &mut tctx, &msg).is_ok());
}

#[test]
fn send_disabled_rejects_transfer() {
    let mut sctx = fresh_send_ctx();
    let mut tctx = funded_token_ctx(&native_denom(), 1000);
    tctx.can_send = false;
    let msg = msg_with(native_denom(), 100);
    assert!(matches!(
        send_transfer(&mut sctx, &mut tctx, &msg),
        Err(TokenTransferError::SendDisabled)
    ));
}

#[test]
fn empty_sender_fails_account_parse() {
    let mut sctx = fresh_send_ctx();
    let mut tctx = funded_token_ctx(&native_denom(), 1000);
    let mut msg = msg_with(native_denom(), 100);
    msg.packet_data.sender = "".to_string();
    assert!(matches!(
        send_transfer(&mut sctx, &mut tctx, &msg),
        Err(TokenTransferError::ParseAccountFailure)
    ));
}

#[test]
fn missing_escrow_account_rejects_native_transfer() {
    let mut sctx = fresh_send_ctx();
    let mut tctx = TokenContext::new();
    tctx.set_balance(&"alice".to_string(), &native_denom(), 1000);
    let msg = msg_with(native_denom(), 100);
    assert!(matches!(
        send_transfer(&mut sctx, &mut tctx, &msg),
        Err(TokenTransferError::EscrowAccountNotFound { .. })
    ));
}

#[test]
fn insufficient_funds_rejects_transfer() {
    let mut sctx = fresh_send_ctx();
    let mut tctx = funded_token_ctx(&native_denom(), 50);
    let msg = msg_with(native_denom(), 100);
    assert!(matches!(
        send_transfer(&mut sctx, &mut tctx, &msg),
        Err(TokenTransferError::InsufficientFunds)
    ));
    assert_eq!(tctx.get_balance(&"alice".to_string(), &native_denom()), 50);
}

#[test]
fn overflowing_escrow_balance_rejects_transfer() {
    let mut sctx = fresh_send_ctx();
    let denom = native_denom();
    let mut tctx = funded_token_ctx(&denom, 1000);
    tctx.set_balance(&"escrow-acct".to_string(), &denom, u64::MAX - 10);
    let msg = msg_with(native_denom(), 100);
    assert!(matches!(
        send_transfer(&mut sctx, &mut tctx, &msg),
        Err(TokenTransferError::BalanceOverflow)
    ));
    assert_eq!(tctx.get_balance(&"alice".to_string(), &denom), 1000);
}

#[test]
fn wrong_sequence_rejects_packet_validate() {
    let sctx = fresh_send_ctx();
    let packet = Packet {
        seq_on_a: 7,
        port_id_on_a: "transfer".to_string(),
        chan_id_on_a: "channel-0".to_string(),
        port_id_on_b: "transfer".to_string(),
        chan_id_on_b: "channel-1".to_string(),
        data: vec![1, 2, 3],
        timeout_height_on_b: TimeoutHeight::Never,
        timeout_timestamp_on_b: Timestamp::from_nanoseconds(0),
    };
    let v = send_packet_validate(&sctx, &packet);
    assert!(matches!(
        v,
        Err(PacketError::MismatchedPacketSequence { expected: 1, actual: 7 })
    ));
}

#[test]
fn mismatched_counterparty_rejects_packet_validate() {
    let sctx = fresh_send_ctx();
    let packet = Packet {
        seq_on_a: 1,
        port_id_on_a: "transfer".to_string(),
        chan_id_on_a: "channel-0".to_string(),
        port_id_on_b: "transfer".to_string(),
        chan_id_on_b: "channel-9".to_string(),
        data: vec![],
        timeout_height_on_b: TimeoutHeight::Never,
        timeout_timestamp_on_b: Timestamp::from_nanoseconds(0),
    };
    let v = send_packet_validate(&sctx, &packet);
    assert!(matches!(
        v,
        Err(PacketError::InvalidPacketCounterparty { .. })
    ));
}
