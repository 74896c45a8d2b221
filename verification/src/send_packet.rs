//! The send-packet pipeline: the validate-then-execute two-phase discipline
//! for committing an outbound packet. Validate is pure; execute writes the
//! commitment and advances the send-sequence counter together, or not at all.

use crate::channel::{ChannelState, Counterparty};
use crate::context::{PacketCommitmentEntry, SendPacketContext};
use crate::errors::PacketError;
use crate::events::Event;
use crate::packet::{compute_packet_commitment, spec_packet_commitment, Packet};
use crate::timestamp::{timeout_height_expired, timeout_timestamp_expired, timestamp_has_expired, TimeoutHeight, Timestamp};
use vstd::prelude::*;

verus! {

/// The packet's destination matches the channel's counterparty, whose
/// channel id must already be known.
pub open spec fn counterparty_matches(cp: Counterparty, port_b: Seq<char>, chan_b: Seq<char>) -> bool {
    &&& cp.port_id@ == port_b
    &&& match cp.channel_id {
        Some(c) => c@ == chan_b,
        None => false,
    }
}

/// The outcome of the validate phase, one variant per check, in the order
/// the checks are made.
#[derive(Clone, Copy, Debug, PartialEq, Eq, Structural)]
pub enum PacketCheck {
    Accept,
    NoChannel,
    NotOpen,
    BadCounterparty,
    HeightExpired,
    TimestampExpired,
    BadSequence,
    SequenceExhausted,
}

/// The decision of the validate phase for a packet given by its field
/// values against a context.
pub open spec fn spec_send_check(
    ctx: SendPacketContext,
    port_a: Seq<char>,
    chan_a: Seq<char>,
    port_b: Seq<char>,
    chan_b: Seq<char>,
    seq: u64,
    timeout_height: TimeoutHeight,
    timeout_timestamp: Timestamp,
) -> PacketCheck {
    if !ctx.has_channel(port_a, chan_a) {
        PacketCheck::NoChannel
    } else {
        let rec = ctx.channel_rec(port_a, chan_a);
        if rec.channel_end.state != ChannelState::Open {
            PacketCheck::NotOpen
        } else if !counterparty_matches(rec.channel_end.counterparty, port_b, chan_b) {
            PacketCheck::BadCounterparty
        } else if timeout_height_expired(timeout_height, ctx.client_latest_height) {
            PacketCheck::HeightExpired
        } else if timeout_timestamp_expired(timeout_timestamp, ctx.client_latest_timestamp) {
            PacketCheck::TimestampExpired
        } else if seq != rec.next_sequence_send {
            PacketCheck::BadSequence
        } else if rec.next_sequence_send == u64::MAX {
            PacketCheck::SequenceExhausted
        } else {
            PacketCheck::Accept
        }
    }
}

/// The validate decision for a packet value.
pub open spec fn spec_packet_check(ctx: SendPacketContext, p: Packet) -> PacketCheck {
    spec_send_check(
        ctx,
        p.port_id_on_a@,
        p.chan_id_on_a@,
        p.port_id_on_b@,
        p.chan_id_on_b@,
        p.seq_on_a,
        p.timeout_height_on_b,
        p.timeout_timestamp_on_b,
    )
}

/// The result of the validate phase names exactly the check that failed.
pub open spec fn validate_result_matches(
    r: Result<(), PacketError>,
    check: PacketCheck,
    port_a: Seq<char>,
    chan_a: Seq<char>,
    port_b: Seq<char>,
    chan_b: Seq<char>,
    expected_seq: u64,
    actual_seq: u64,
) -> bool {
    match check {
        PacketCheck::Accept => r is Ok,
        PacketCheck::NoChannel => r matches Err(PacketError::ChannelNotFound {
            port_id,
            channel_id,
        }) && port_id@ == port_a && channel_id@ == chan_a,
        PacketCheck::NotOpen => r matches Err(PacketError::ChannelNotOpen),
        PacketCheck::BadCounterparty => r matches Err(PacketError::InvalidPacketCounterparty {
            port_id,
            channel_id,
        }) && port_id@ == port_b && channel_id@ == chan_b,
        PacketCheck::HeightExpired => r matches Err(PacketError::LowPacketHeight),
        PacketCheck::TimestampExpired => r matches Err(PacketError::LowPacketTimestamp),
        PacketCheck::BadSequence => r matches Err(PacketError::MismatchedPacketSequence {
            expected,
            actual,
        }) && expected == expected_seq && actual == actual_seq,
        PacketCheck::SequenceExhausted => r matches Err(PacketError::SequenceOverflow),
    }
}

/// Validate phase of the send-packet pipeline. Pure: checks that the
/// channel exists and is open, that the packet addresses the channel's
/// counterparty, that the timeout height and timestamp are strictly in the
/// future of the counterparty's latest known consensus state, and that the
/// packet carries the channel's next-send sequence. Mutates nothing.
pub fn send_packet_validate(ctx: &SendPacketContext, packet: &Packet) -> (r: Result<
    (),
    PacketError,
>)
    requires
        ctx.wf(),
    ensures
        validate_result_matches(
            r,
            spec_packet_check(*ctx, *packet),
            packet.port_id_on_a@,
            packet.chan_id_on_a@,
            packet.port_id_on_b@,
            packet.chan_id_on_b@,
            ctx.next_seq(packet.port_id_on_a@, packet.chan_id_on_a@),
            packet.seq_on_a,
        ),
        r is Ok <==> spec_packet_check(*ctx, *packet) == PacketCheck::Accept,
{
    let chan_end = ctx.channel_end(&packet.port_id_on_a, &packet.chan_id_on_a)?;
    if !chan_end.is_open() {
        return Err(PacketError::ChannelNotOpen);
    }
    let cp = chan_end.counterparty();
    let cp_ok = match &cp.channel_id {
        Some(c) => cp.port_id == packet.port_id_on_b && *c == packet.chan_id_on_b,
        None => false,
    };
    if !cp_ok {
        return Err(
            PacketError::InvalidPacketCounterparty {
                port_id: packet.port_id_on_b.clone(),
                channel_id: packet.chan_id_on_b.clone(),
            },
        );
    }
    if packet.timeout_height_on_b.has_expired(&ctx.client_latest_height) {
        return Err(PacketError::LowPacketHeight);
    }
    if timestamp_has_expired(&packet.timeout_timestamp_on_b, &ctx.client_latest_timestamp) {
        return Err(PacketError::LowPacketTimestamp);
    }
    let next = ctx.get_next_sequence_send(&packet.port_id_on_a, &packet.chan_id_on_a)?;
    if packet.seq_on_a != next {
        return Err(PacketError::MismatchedPacketSequence { expected: next, actual: packet.seq_on_a });
    }
    if next == u64::MAX {
        return Err(PacketError::SequenceOverflow);
    }
    Ok(())
}

/// The state transition of a successful execute: the channel's record gets
/// one more commitment, carrying the packet's sequence and commitment
/// bytes, its counter advances by exactly one, a send event is emitted, a
/// log line is written, and everything else is unchanged.
pub open spec fn send_packet_execute_post(
    pre: SendPacketContext,
    post: SendPacketContext,
    p: Packet,
) -> bool {
    let i = pre.channel_index(p.port_id_on_a@, p.chan_id_on_a@);
    let r0 = pre.channels@[i];
    let r1 = post.channels@[i];
    &&& post.channels@.len() == pre.channels@.len()
    &&& forall|j: int|
        0 <= j < pre.channels@.len() && j != i ==> post.channels@[j] == #[trigger] pre.channels@[j]
    &&& r1.port_id == r0.port_id
    &&& r1.channel_id == r0.channel_id
    &&& r1.channel_end == r0.channel_end
    &&& r1.next_sequence_send == r0.next_sequence_send + 1
    &&& r1.commitments@.len() == r0.commitments@.len() + 1
    &&& r1.commitments@.drop_last() == r0.commitments@
    &&& r1.commitments@.last().sequence == p.seq_on_a
    &&& r1.commitments@.last().commitment@ == spec_packet_commitment(p)
    &&& post.events@.len() == pre.events@.len() + 1
    &&& post.events@.drop_last() == pre.events@
    &&& (post.events@.last() matches Event::SendPacket { port_id_on_a, chan_id_on_a, seq_on_a }
        && port_id_on_a@ == p.port_id_on_a@ && chan_id_on_a@ == p.chan_id_on_a@ && seq_on_a
        == p.seq_on_a)
    &&& post.logs@.len() == pre.logs@.len() + 1
    &&& post.logs@.drop_last() == pre.logs@
    &&& post.client_latest_height == pre.client_latest_height
    &&& post.client_latest_timestamp == pre.client_latest_timestamp
}

/// Execute phase of the send-packet pipeline. Must only be called after
/// validate succeeded on an unchanged context; that caller contract is what
/// guarantees the sequence agreement in the `requires`. The commitment
/// write and the counter increment happen together, or — when the channel
/// lookup fails — not at all.
pub fn send_packet_execute(ctx: &mut SendPacketContext, packet: Packet) -> (r: Result<
    (),
    PacketError,
>)
    requires
        old(ctx).wf(),
        old(ctx).has_channel(packet.port_id_on_a@, packet.chan_id_on_a@) ==> packet.seq_on_a
            == old(ctx).next_seq(packet.port_id_on_a@, packet.chan_id_on_a@) && packet.seq_on_a
            < u64::MAX,
    ensures
        final(ctx).wf(),
        match r {
            Ok(()) => old(ctx).has_channel(packet.port_id_on_a@, packet.chan_id_on_a@)
                && send_packet_execute_post(*old(ctx), *final(ctx), packet),
            Err(e) => {
                &&& !old(ctx).has_channel(packet.port_id_on_a@, packet.chan_id_on_a@)
                &&& *final(ctx) == *old(ctx)
                &&& (e matches PacketError::ChannelNotFound { port_id, channel_id } && port_id@
                    == packet.port_id_on_a@ && channel_id@ == packet.chan_id_on_a@)
            },
        },
{
    let i = match ctx.find_channel(&packet.port_id_on_a, &packet.chan_id_on_a) {
        Some(i) => i,
        None => {
            return Err(
                PacketError::ChannelNotFound {
                    port_id: packet.port_id_on_a.clone(),
                    channel_id: packet.chan_id_on_a.clone(),
                },
            );
        },
    };
    proof {
        ctx.lemma_key_pins_index(i as int, packet.port_id_on_a@, packet.chan_id_on_a@);
    }
    let ghost pre = *ctx;
    let commitment = compute_packet_commitment(&packet);
    let entry = PacketCommitmentEntry { sequence: packet.seq_on_a, commitment };
    let event = Event::SendPacket {
        port_id_on_a: packet.port_id_on_a.clone(),
        chan_id_on_a: packet.chan_id_on_a.clone(),
        seq_on_a: packet.seq_on_a,
    };
    let rec = &mut ctx.channels[i];
    rec.next_sequence_send = rec.next_sequence_send + 1;
    rec.commitments.push(entry);
    ctx.events.push(event);
    ctx.logs.push("success: packet send".to_owned());
    proof {
        assert(ctx.channels@ =~= pre.channels@.update(
            i as int,
            ctx.channels@[i as int],
        ));
        assert(ctx.events@.drop_last() =~= pre.events@);
        assert(ctx.logs@.drop_last() =~= pre.logs@);
        assert(ctx.channels@[i as int].commitments@.drop_last() =~= pre.channels@[i as int].commitments@);
        assert forall|a: int, b: int|
            0 <= a < b < ctx.channels@.len() implies #[trigger] ctx.key_at(a) != #[trigger] ctx.key_at(
            b,
        ) by {
            assert(pre.key_at(a) != pre.key_at(b));
            assert(ctx.key_at(a) == pre.key_at(a));
            assert(ctx.key_at(b) == pre.key_at(b));
        }
    }
    Ok(())
}

/// Law: sequence monotonicity. Two successful executes in a row on the
/// same (port, channel), each carrying the sequence that validate demands
/// (the channel's next-send counter), assign strictly increasing sequences,
/// exactly one apart. On a channel fresh from `add_channel` the counter is
/// 1, so assigned sequences are 1, 2, 3, ... in order.
pub proof fn lemma_sequence_monotonic(
    c0: SendPacketContext,
    c1: SendPacketContext,
    c2: SendPacketContext,
    p1: Packet,
    p2: Packet,
)
    requires
        c0.wf(),
        c1.wf(),
        p2.port_id_on_a@ == p1.port_id_on_a@,
        p2.chan_id_on_a@ == p1.chan_id_on_a@,
        c0.has_channel(p1.port_id_on_a@, p1.chan_id_on_a@),
        p1.seq_on_a == c0.next_seq(p1.port_id_on_a@, p1.chan_id_on_a@),
        p1.seq_on_a < u64::MAX,
        send_packet_execute_post(c0, c1, p1),
        p2.seq_on_a == c1.next_seq(p2.port_id_on_a@, p2.chan_id_on_a@),
        send_packet_execute_post(c1, c2, p2),
    ensures
        p2.seq_on_a == p1.seq_on_a + 1,
{
    let port = p1.port_id_on_a@;
    let chan = p1.chan_id_on_a@;
    let i = c0.channel_index(port, chan);
    assert(c0.key_at(i) == (port, chan));
    assert(c1.key_at(i) == (port, chan));
    c1.lemma_key_pins_index(i, port, chan);
}

/// Law: sequences start at 1. On a channel that has sent nothing yet, a
/// packet that validate accepts carries sequence 1.
pub proof fn lemma_first_sequence_is_one(ctx: SendPacketContext, p: Packet)
    requires
        ctx.wf(),
        ctx.channel_rec(p.port_id_on_a@, p.chan_id_on_a@).commitments@.len() == 0,
        spec_packet_check(ctx, p) == PacketCheck::Accept,
    ensures
        p.seq_on_a == 1,
{
    let i = ctx.channel_index(p.port_id_on_a@, p.chan_id_on_a@);
    assert(ctx.channels@[i].next_sequence_send as int == ctx.channels@[i].commitments@.len() + 1);
}

/// Law: validate/execute equivalence. When validate accepts a packet, the
/// execute phase on the unchanged context cannot fail for a reason that
/// validate checked: the channel is present (excluding execute's only
/// error), and the sequence agreement and headroom that execute's caller
/// contract demands are established.
pub proof fn lemma_validate_then_execute(ctx: SendPacketContext, p: Packet)
    requires
        ctx.wf(),
        spec_packet_check(ctx, p) == PacketCheck::Accept,
    ensures
        ctx.has_channel(p.port_id_on_a@, p.chan_id_on_a@),
        p.seq_on_a == ctx.next_seq(p.port_id_on_a@, p.chan_id_on_a@),
        p.seq_on_a < u64::MAX,
{
}

/// Law: no channel, no send. Without a stored channel end the validate
/// decision is the not-found error; by `send_packet_execute`'s contract the
/// execute phase then also fails with the not-found error and leaves the
/// context — in particular every sequence counter — unchanged.
pub proof fn lemma_no_channel_no_send(ctx: SendPacketContext, p: Packet)
    requires
        !ctx.has_channel(p.port_id_on_a@, p.chan_id_on_a@),
    ensures
        spec_packet_check(ctx, p) == PacketCheck::NoChannel,
{
}

} // verus!
