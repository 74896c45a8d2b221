//! The token-transfer application: composes the escrow-or-burn decision
//! with the two-phase send-packet pipeline.

use crate::codec::{push_str_frame, push_u64, spec_frame, utf8_bytes};
use crate::context::SendPacketContext;
use crate::denom::{denom_key, is_sender_chain_source, spec_trace_starts_with, Coin, TracePrefix};
use crate::errors::{PacketError, TokenTransferError};
use crate::events::Event;
use crate::packet::Packet;
use crate::send_packet::{
    send_packet_execute, send_packet_validate, spec_send_check, validate_result_matches,
    PacketCheck,
};
use crate::timestamp::{TimeoutHeight, Timestamp};
use crate::token::{TokenCheck, TokenContext};
use vstd::bytes::spec_u64_to_le_bytes;
use vstd::prelude::*;

verus! {

/// The application payload of a transfer packet.
#[derive(Debug)]
pub struct PacketData {
    pub token: Coin,
    pub sender: String,
    pub receiver: String,
    pub memo: String,
}

/// A request to transfer `packet_data.token` out through the channel
/// (`port_id_on_a`, `chan_id_on_a`).
#[derive(Debug)]
pub struct MsgTransfer {
    pub port_id_on_a: String,
    pub chan_id_on_a: String,
    pub packet_data: PacketData,
    pub timeout_height_on_b: TimeoutHeight,
    pub timeout_timestamp_on_b: Timestamp,
}

/// Byte encoding of one trace hop: two framed strings.
pub open spec fn spec_prefix_bytes(p: TracePrefix) -> Seq<u8> {
    spec_frame(utf8_bytes(p.port_id@)) + spec_frame(utf8_bytes(p.channel_id@))
}

/// Byte encoding of a denomination trace, hop by hop.
pub open spec fn spec_trace_bytes(t: Seq<TracePrefix>) -> Seq<u8>
    decreases t.len(),
{
    if t.len() == 0 {
        Seq::empty()
    } else {
        spec_prefix_bytes(t[0]) + spec_trace_bytes(t.skip(1))
    }
}

/// Encoding a trace extended by one hop appends that hop's bytes.
pub proof fn lemma_trace_bytes_push(t: Seq<TracePrefix>, x: TracePrefix)
    ensures
        spec_trace_bytes(t.push(x)) == spec_trace_bytes(t) + spec_prefix_bytes(x),
    decreases t.len(),
{
    if t.len() == 0 {
        assert(t.push(x)[0] == x);
        assert(t.push(x).skip(1) =~= Seq::<TracePrefix>::empty());
        assert(spec_trace_bytes(t.push(x)) == spec_prefix_bytes(x) + spec_trace_bytes(
            Seq::<TracePrefix>::empty(),
        ));
        assert(spec_trace_bytes(Seq::<TracePrefix>::empty()) == Seq::<u8>::empty());
        assert(spec_trace_bytes(t) == Seq::<u8>::empty());
        assert(spec_prefix_bytes(x) + Seq::<u8>::empty() =~= Seq::<u8>::empty()
            + spec_prefix_bytes(x));
    } else {
        assert(t.push(x).skip(1) =~= t.skip(1).push(x));
        assert(t.push(x)[0] == t[0]);
        assert(spec_trace_bytes(t.push(x)) == spec_prefix_bytes(t[0]) + spec_trace_bytes(
            t.skip(1).push(x),
        ));
        lemma_trace_bytes_push(t.skip(1), x);
        assert(spec_trace_bytes(t) == spec_prefix_bytes(t[0]) + spec_trace_bytes(t.skip(1)));
        assert(spec_prefix_bytes(t[0]) + (spec_trace_bytes(t.skip(1)) + spec_prefix_bytes(x))
            =~= (spec_prefix_bytes(t[0]) + spec_trace_bytes(t.skip(1))) + spec_prefix_bytes(x));
    }
}

/// The deterministic byte encoding of a transfer payload: the number of
/// trace hops, the hops, the framed base denomination, the amount, and the
/// framed sender, receiver and memo strings.
pub open spec fn spec_packet_data_bytes(pd: PacketData) -> Seq<u8> {
    spec_u64_to_le_bytes(pd.token.denom.trace_path@.len() as u64) + spec_trace_bytes(
        pd.token.denom.trace_path@,
    ) + spec_frame(utf8_bytes(pd.token.denom.base_denom@)) + spec_u64_to_le_bytes(pd.token.amount)
        + spec_frame(utf8_bytes(pd.sender@)) + spec_frame(utf8_bytes(pd.receiver@)) + spec_frame(
        utf8_bytes(pd.memo@),
    )
}

/// Serializes a transfer payload into the packet's opaque data bytes.
pub fn encode_packet_data(pd: &PacketData) -> (r: Vec<u8>)
    ensures
        r@ == spec_packet_data_bytes(*pd),
{
    let mut out: Vec<u8> = Vec::new();
    let trace = &pd.token.denom.trace_path;
    push_u64(&mut out, trace.len() as u64);
    let ghost head = out@;
    let mut i: usize = 0;
    while i < trace.len()
        invariant
            i <= trace@.len(),
            out@ == head + spec_trace_bytes(trace@.take(i as int)),
        decreases trace@.len() - i,
    {
        let p = &trace[i];
        push_str_frame(&mut out, p.port_id.as_str());
        push_str_frame(&mut out, p.channel_id.as_str());
        proof {
            lemma_trace_bytes_push(trace@.take(i as int), trace@[i as int]);
            assert(trace@.take(i as int).push(trace@[i as int]) =~= trace@.take(i as int + 1));
            assert(out@ =~= head + spec_trace_bytes(trace@.take(i as int + 1)));
        }
        i = i + 1;
    }
    proof {
        assert(trace@.take(trace@.len() as int) =~= trace@);
    }
    push_str_frame(&mut out, pd.token.denom.base_denom.as_str());
    push_u64(&mut out, pd.token.amount);
    push_str_frame(&mut out, pd.sender.as_str());
    push_str_frame(&mut out, pd.receiver.as_str());
    push_str_frame(&mut out, pd.memo.as_str());
    proof {
        assert(out@ =~= spec_packet_data_bytes(*pd));
    }
    out
}

/// Parses a sender string into an account id. An account is any non-empty
/// string; parsing fails exactly on the empty string.
pub fn parse_account(s: &String) -> (r: Option<String>)
    ensures
        r is Some <==> s@.len() > 0,
        (r matches Some(a)) ==> (r matches Some(a) && a@ == s@),
{
    if s.as_str().is_empty() {
        None
    } else {
        Some(s.clone())
    }
}

/// The channel's counterparty port, as the transfer reads it.
pub open spec fn cp_port(sctx: SendPacketContext, msg: MsgTransfer) -> Seq<char> {
    sctx.channel_rec(
        msg.port_id_on_a@,
        msg.chan_id_on_a@,
    ).channel_end.counterparty.port_id@
}

/// The counterparty channel id is already known.
pub open spec fn has_dest(sctx: SendPacketContext, msg: MsgTransfer) -> bool {
    sctx.channel_rec(msg.port_id_on_a@, msg.chan_id_on_a@).channel_end.counterparty.channel_id
        is Some
}

/// The channel's counterparty channel id, as the transfer reads it.
pub open spec fn cp_chan(sctx: SendPacketContext, msg: MsgTransfer) -> Seq<char> {
    sctx.channel_rec(
        msg.port_id_on_a@,
        msg.chan_id_on_a@,
    ).channel_end.counterparty.channel_id->Some_0@
}

/// The sending chain is the source of the transferred asset: its trace
/// does not already begin with the outbound (port, channel) leg.
pub open spec fn sender_is_source(msg: MsgTransfer) -> bool {
    !spec_trace_starts_with(msg.packet_data.token.denom, msg.port_id_on_a@, msg.chan_id_on_a@)
}

/// The escrow-or-burn feasibility decision for the transfer.
pub open spec fn spec_token_check(tctx: TokenContext, msg: MsgTransfer) -> TokenCheck {
    let k = denom_key(msg.packet_data.token.denom);
    let amount = msg.packet_data.token.amount;
    let sender = msg.packet_data.sender@;
    if sender_is_source(msg) {
        tctx.spec_send_coins_check(
            sender,
            tctx.escrow_account_of(msg.port_id_on_a@, msg.chan_id_on_a@),
            k,
            amount,
        )
    } else {
        tctx.spec_burn_coins_check(sender, k, amount)
    }
}

/// The packet-pipeline decision for the packet the transfer derives.
pub open spec fn spec_transfer_packet_check(sctx: SendPacketContext, msg: MsgTransfer) -> PacketCheck {
    spec_send_check(
        sctx,
        msg.port_id_on_a@,
        msg.chan_id_on_a@,
        cp_port(sctx, msg),
        cp_chan(sctx, msg),
        sctx.next_seq(msg.port_id_on_a@, msg.chan_id_on_a@),
        msg.timeout_height_on_b,
        msg.timeout_timestamp_on_b,
    )
}

/// The first step of the transfer's validate phase that fails, or `Pass`.
#[derive(Clone, Copy, Debug, PartialEq, Eq, Structural)]
pub enum TransferStep {
    Pass,
    NoSendCapability,
    SourceChannelNotFound,
    NoDestinationChannel,
    BadSenderAccount,
    NoEscrowAccount,
    TokenFailed(TokenCheck),
    PacketFailed(PacketCheck),
}

/// The decision of the transfer's validate phase, in the order the checks
/// are made.
pub open spec fn spec_transfer_step(
    sctx: SendPacketContext,
    tctx: TokenContext,
    msg: MsgTransfer,
) -> TransferStep {
    let port_a = msg.port_id_on_a@;
    let chan_a = msg.chan_id_on_a@;
    if !tctx.can_send {
        TransferStep::NoSendCapability
    } else if !sctx.has_channel(port_a, chan_a) {
        TransferStep::SourceChannelNotFound
    } else if !has_dest(sctx, msg) {
        TransferStep::NoDestinationChannel
    } else if msg.packet_data.sender@.len() == 0 {
        TransferStep::BadSenderAccount
    } else if sender_is_source(msg) && !tctx.has_escrow(port_a, chan_a) {
        TransferStep::NoEscrowAccount
    } else if spec_token_check(tctx, msg) != TokenCheck::Accept {
        TransferStep::TokenFailed(spec_token_check(tctx, msg))
    } else if spec_transfer_packet_check(sctx, msg) != PacketCheck::Accept {
        TransferStep::PacketFailed(spec_transfer_packet_check(sctx, msg))
    } else {
        TransferStep::Pass
    }
}

/// The result of a transfer phase names exactly the step that failed.
pub open spec fn transfer_result_matches(
    r: Result<(), TokenTransferError>,
    step: TransferStep,
    sctx: SendPacketContext,
    msg: MsgTransfer,
) -> bool {
    let port_a = msg.port_id_on_a@;
    let chan_a = msg.chan_id_on_a@;
    match step {
        TransferStep::Pass => r is Ok,
        TransferStep::NoSendCapability => r matches Err(TokenTransferError::SendDisabled),
        TransferStep::SourceChannelNotFound => r matches Err(
            TokenTransferError::Packet(PacketError::ChannelNotFound { port_id, channel_id }),
        ) && port_id@ == port_a && channel_id@ == chan_a,
        TransferStep::NoDestinationChannel => r matches Err(
            TokenTransferError::DestinationChannelNotFound { port_id, channel_id },
        ) && port_id@ == port_a && channel_id@ == chan_a,
        TransferStep::BadSenderAccount => r matches Err(TokenTransferError::ParseAccountFailure),
        TransferStep::NoEscrowAccount => r matches Err(
            TokenTransferError::EscrowAccountNotFound { port_id, channel_id },
        ) && port_id@ == port_a && channel_id@ == chan_a,
        TransferStep::TokenFailed(tc) => match tc {
            TokenCheck::Accept => false,
            TokenCheck::Insufficient => r matches Err(TokenTransferError::InsufficientFunds),
            TokenCheck::Overflow => r matches Err(TokenTransferError::BalanceOverflow),
        },
        TransferStep::PacketFailed(pc) => pc != PacketCheck::Accept && pc != PacketCheck::NoChannel
            && (r matches Err(TokenTransferError::Packet(e)) && validate_result_matches(
            Err(e),
            pc,
            port_a,
            chan_a,
            cp_port(sctx, msg),
            cp_chan(sctx, msg),
            sctx.next_seq(port_a, chan_a),
            sctx.next_seq(port_a, chan_a),
        )),
    }
}

/// Validates a token transfer: checks the send capability, resolves the
/// channel and its counterparty, checks that the sender account parses and
/// that the escrow or burn it implies is possible, derives the packet, and
/// runs the packet pipeline's validate phase. Mutates nothing; if this
/// succeeds it is legal to run `send_transfer_execute`.
pub fn send_transfer_validate(
    send_packet_ctx_a: &SendPacketContext,
    token_ctx_a: &TokenContext,
    msg: &MsgTransfer,
) -> (r: Result<(), TokenTransferError>)
    requires
        send_packet_ctx_a.wf(),
        token_ctx_a.wf(),
    ensures
        transfer_result_matches(
            r,
            spec_transfer_step(*send_packet_ctx_a, *token_ctx_a, *msg),
            *send_packet_ctx_a,
            *msg,
        ),
        r is Ok <==> spec_transfer_step(*send_packet_ctx_a, *token_ctx_a, *msg)
            == TransferStep::Pass,
{
    match token_ctx_a.can_send_coins() {
        Ok(()) => (),
        Err(e) => {
            return Err(e);
        },
    }
    let chan_end_on_a = match send_packet_ctx_a.channel_end(&msg.port_id_on_a, &msg.chan_id_on_a) {
        Ok(c) => c,
        Err(e) => {
            return Err(TokenTransferError::Packet(e));
        },
    };
    let port_id_on_b = chan_end_on_a.counterparty.port_id.clone();
    let chan_id_on_b = match &chan_end_on_a.counterparty.channel_id {
        Some(c) => c.clone(),
        None => {
            return Err(
                TokenTransferError::DestinationChannelNotFound {
                    port_id: msg.port_id_on_a.clone(),
                    channel_id: msg.chan_id_on_a.clone(),
                },
            );
        },
    };
    let sequence = match send_packet_ctx_a.get_next_sequence_send(
        &msg.port_id_on_a,
        &msg.chan_id_on_a,
    ) {
        Ok(s) => s,
        Err(e) => {
            return Err(TokenTransferError::Packet(e));
        },
    };
    let token = &msg.packet_data.token;
    let sender = match parse_account(&msg.packet_data.sender) {
        Some(a) => a,
        None => {
            return Err(TokenTransferError::ParseAccountFailure);
        },
    };
    if is_sender_chain_source(&msg.port_id_on_a, &msg.chan_id_on_a, &token.denom) {
        let escrow_address = match token_ctx_a.get_escrow_account(
            &msg.port_id_on_a,
            &msg.chan_id_on_a,
        ) {
            Ok(a) => a,
            Err(e) => {
                return Err(e);
            },
        };
        match token_ctx_a.send_coins_validate(&sender, &escrow_address, token) {
            Ok(()) => (),
            Err(e) => {
                return Err(e);
            },
        }
    } else {
        match token_ctx_a.burn_coins_validate(&sender, token) {
            Ok(()) => (),
            Err(e) => {
                return Err(e);
            },
        }
    }
    let data = encode_packet_data(&msg.packet_data);
    let packet = Packet {
        seq_on_a: sequence,
        port_id_on_a: msg.port_id_on_a.clone(),
        chan_id_on_a: msg.chan_id_on_a.clone(),
        port_id_on_b,
        chan_id_on_b,
        data,
        timeout_height_on_b: msg.timeout_height_on_b,
        timeout_timestamp_on_b: msg.timeout_timestamp_on_b,
    };
    match send_packet_validate(send_packet_ctx_a, &packet) {
        Ok(()) => Ok(()),
        Err(e) => Err(TokenTransferError::Packet(e)),
    }
}

/// The decision of the transfer's execute phase: the same chain of checks
/// except the packet pipeline's pure validations, which execute does not
/// repeat — only the machine limit on the sequence counter remains.
pub open spec fn spec_transfer_execute_step(
    sctx: SendPacketContext,
    tctx: TokenContext,
    msg: MsgTransfer,
) -> TransferStep {
    let port_a = msg.port_id_on_a@;
    let chan_a = msg.chan_id_on_a@;
    if !tctx.can_send {
        TransferStep::NoSendCapability
    } else if !sctx.has_channel(port_a, chan_a) {
        TransferStep::SourceChannelNotFound
    } else if !has_dest(sctx, msg) {
        TransferStep::NoDestinationChannel
    } else if msg.packet_data.sender@.len() == 0 {
        TransferStep::BadSenderAccount
    } else if sctx.next_seq(port_a, chan_a) == u64::MAX {
        TransferStep::PacketFailed(PacketCheck::SequenceExhausted)
    } else if sender_is_source(msg) && !tctx.has_escrow(port_a, chan_a) {
        TransferStep::NoEscrowAccount
    } else if spec_token_check(tctx, msg) != TokenCheck::Accept {
        TransferStep::TokenFailed(spec_token_check(tctx, msg))
    } else {
        TransferStep::Pass
    }
}

/// The state transition of a successful transfer execute on the packet
/// side: the channel's counter advanced by one, the commitment over the
/// derived packet was stored under the assigned sequence, and the send,
/// transfer and module-message events plus two log lines were appended.
pub open spec fn transfer_send_post(
    pre: SendPacketContext,
    post: SendPacketContext,
    msg: MsgTransfer,
) -> bool {
    let port_a = msg.port_id_on_a@;
    let chan_a = msg.chan_id_on_a@;
    let i = pre.channel_index(port_a, chan_a);
    let r0 = pre.channels@[i];
    let r1 = post.channels@[i];
    let ne = pre.events@.len() as int;
    &&& post.channels@.len() == pre.channels@.len()
    &&& forall|j: int|
        0 <= j < pre.channels@.len() && j != i ==> post.channels@[j] == #[trigger] pre.channels@[j]
    &&& r1.port_id == r0.port_id
    &&& r1.channel_id == r0.channel_id
    &&& r1.channel_end == r0.channel_end
    &&& r1.next_sequence_send == r0.next_sequence_send + 1
    &&& r1.commitments@.len() == r0.commitments@.len() + 1
    &&& r1.commitments@.drop_last() == r0.commitments@
    &&& r1.commitments@.last().sequence == r0.next_sequence_send
    &&& r1.commitments@.last().commitment@ == crate::packet::spec_commitment_v(
        r0.next_sequence_send,
        port_a,
        chan_a,
        cp_port(pre, msg),
        cp_chan(pre, msg),
        spec_packet_data_bytes(msg.packet_data),
        msg.timeout_height_on_b,
        msg.timeout_timestamp_on_b,
    )
    &&& post.events@.len() == pre.events@.len() + 3
    &&& post.events@.subrange(0, ne) == pre.events@
    &&& (post.events@[ne] matches Event::SendPacket { port_id_on_a, chan_id_on_a, seq_on_a }
        && port_id_on_a@ == port_a && chan_id_on_a@ == chan_a && seq_on_a
        == r0.next_sequence_send)
    &&& (post.events@[ne + 1] matches Event::Transfer { sender, receiver, denom, amount, memo }
        && sender@ == msg.packet_data.sender@ && receiver@ == msg.packet_data.receiver@
        && denom_key(denom) == denom_key(msg.packet_data.token.denom) && amount
        == msg.packet_data.token.amount && memo@ == msg.packet_data.memo@)
    &&& (post.events@[ne + 2] matches Event::Message { module } && module@ == "transfer"@)
    &&& post.logs@.len() == pre.logs@.len() + 2
    &&& post.logs@.subrange(0, pre.logs@.len() as int) == pre.logs@
    &&& post.client_latest_height == pre.client_latest_height
    &&& post.client_latest_timestamp == pre.client_latest_timestamp
}

/// The state transition of a successful transfer execute on the token
/// side: exactly one escrow or burn, decided by the source predicate.
pub open spec fn transfer_token_post(
    pre: TokenContext,
    post: TokenContext,
    msg: MsgTransfer,
) -> bool {
    let k = denom_key(msg.packet_data.token.denom);
    let amount = msg.packet_data.token.amount;
    let sender = msg.packet_data.sender@;
    if sender_is_source(msg) {
        crate::token::spec_escrowed(
            pre,
            post,
            sender,
            pre.escrow_account_of(msg.port_id_on_a@, msg.chan_id_on_a@),
            k,
            amount,
        )
    } else {
        crate::token::spec_burned(pre, post, sender, k, amount)
    }
}

/// Executes a token transfer. A prior call to `send_transfer_validate`
/// must have succeeded on the same, unchanged contexts. Re-derives the
/// packet, performs the escrow or burn, commits the packet, and emits the
/// transfer events. On any failure both contexts are left unchanged.
pub fn send_transfer_execute(
    send_packet_ctx_a: &mut SendPacketContext,
    token_ctx_a: &mut TokenContext,
    msg: &MsgTransfer,
) -> (r: Result<(), TokenTransferError>)
    requires
        old(send_packet_ctx_a).wf(),
        old(token_ctx_a).wf(),
    ensures
        final(send_packet_ctx_a).wf(),
        final(token_ctx_a).wf(),
        transfer_result_matches(
            r,
            spec_transfer_execute_step(*old(send_packet_ctx_a), *old(token_ctx_a), *msg),
            *old(send_packet_ctx_a),
            *msg,
        ),
        r is Ok <==> spec_transfer_execute_step(*old(send_packet_ctx_a), *old(token_ctx_a), *msg)
            == TransferStep::Pass,
        r is Err ==> *final(send_packet_ctx_a) == *old(send_packet_ctx_a) && *final(token_ctx_a)
            == *old(token_ctx_a),
        r is Ok ==> transfer_send_post(*old(send_packet_ctx_a), *final(send_packet_ctx_a), *msg)
            && transfer_token_post(*old(token_ctx_a), *final(token_ctx_a), *msg),
{
    let ghost s0 = *send_packet_ctx_a;
    let ghost t0 = *token_ctx_a;
    match token_ctx_a.can_send_coins() {
        Ok(()) => (),
        Err(e) => {
            return Err(e);
        },
    }
    let (port_id_on_b, chan_id_on_b) = match send_packet_ctx_a.channel_end(
        &msg.port_id_on_a,
        &msg.chan_id_on_a,
    ) {
        Ok(c) => {
            let port = c.counterparty.port_id.clone();
            match &c.counterparty.channel_id {
                Some(chan) => (port, chan.clone()),
                None => {
                    return Err(
                        TokenTransferError::DestinationChannelNotFound {
                            port_id: msg.port_id_on_a.clone(),
                            channel_id: msg.chan_id_on_a.clone(),
                        },
                    );
                },
            }
        },
        Err(e) => {
            return Err(TokenTransferError::Packet(e));
        },
    };
    let sequence = match send_packet_ctx_a.get_next_sequence_send(
        &msg.port_id_on_a,
        &msg.chan_id_on_a,
    ) {
        Ok(s) => s,
        Err(e) => {
            return Err(TokenTransferError::Packet(e));
        },
    };
    let token = &msg.packet_data.token;
    let sender = match parse_account(&msg.packet_data.sender) {
        Some(a) => a,
        None => {
            return Err(TokenTransferError::ParseAccountFailure);
        },
    };
    if sequence == u64::MAX {
        // The commitment of one more packet could not be indexed; refuse
        // before any coin moves so that failure leaves no trace.
        return Err(TokenTransferError::Packet(PacketError::SequenceOverflow));
    }
    if is_sender_chain_source(&msg.port_id_on_a, &msg.chan_id_on_a, &token.denom) {
        let escrow_address = match token_ctx_a.get_escrow_account(
            &msg.port_id_on_a,
            &msg.chan_id_on_a,
        ) {
            Ok(a) => a,
            Err(e) => {
                return Err(e);
            },
        };
        match token_ctx_a.send_coins_execute(&sender, &escrow_address, token) {
            Ok(()) => (),
            Err(e) => {
                return Err(e);
            },
        }
    } else {
        match token_ctx_a.burn_coins_execute(&sender, token) {
            Ok(()) => (),
            Err(e) => {
                return Err(e);
            },
        }
    }
    let data = encode_packet_data(&msg.packet_data);
    let packet = Packet {
        seq_on_a: sequence,
        port_id_on_a: msg.port_id_on_a.clone(),
        chan_id_on_a: msg.chan_id_on_a.clone(),
        port_id_on_b,
        chan_id_on_b,
        data,
        timeout_height_on_b: msg.timeout_height_on_b,
        timeout_timestamp_on_b: msg.timeout_timestamp_on_b,
    };
    let ghost s1 = *send_packet_ctx_a;
    match send_packet_execute(send_packet_ctx_a, packet) {
        Ok(()) => (),
        Err(e) => {
            return Err(TokenTransferError::Packet(e));
        },
    }
    let ghost s2 = *send_packet_ctx_a;
    send_packet_ctx_a.log_message("ibc fungible token transfer".to_owned());
    send_packet_ctx_a.emit_ibc_event(
        Event::Transfer {
            sender: msg.packet_data.sender.clone(),
            receiver: msg.packet_data.receiver.clone(),
            denom: msg.packet_data.token.denom.clone(),
            amount: msg.packet_data.token.amount,
            memo: msg.packet_data.memo.clone(),
        },
    );
    send_packet_ctx_a.emit_ibc_event(Event::Message { module: "transfer".to_owned() });
    proof {
        crate::context::lemma_wf_same_channels(s2, *send_packet_ctx_a);
        let ne = s0.events@.len() as int;
        assert(s1.channels@ == s0.channels@);
        assert(s1.events@ == s0.events@);
        assert(s1.logs@ == s0.logs@);
        assert(send_packet_ctx_a.events@.subrange(0, ne) =~= s0.events@);
        assert(send_packet_ctx_a.logs@.subrange(0, s0.logs@.len() as int) =~= s0.logs@);
        assert(send_packet_ctx_a.events@[ne] == s2.events@.last());
        assert(transfer_send_post(s0, *send_packet_ctx_a, *msg));
    }
    Ok(())
}

/// Initiates a token transfer: validates it and, exactly when validation
/// succeeds, executes it.
pub fn send_transfer(
    send_packet_ctx_a: &mut SendPacketContext,
    token_ctx_a: &mut TokenContext,
    msg: &MsgTransfer,
) -> (r: Result<(), TokenTransferError>)
    requires
        old(send_packet_ctx_a).wf(),
        old(token_ctx_a).wf(),
    ensures
        final(send_packet_ctx_a).wf(),
        final(token_ctx_a).wf(),
        transfer_result_matches(
            r,
            spec_transfer_step(*old(send_packet_ctx_a), *old(token_ctx_a), *msg),
            *old(send_packet_ctx_a),
            *msg,
        ),
        r is Ok <==> spec_transfer_step(*old(send_packet_ctx_a), *old(token_ctx_a), *msg)
            == TransferStep::Pass,
        r is Err ==> *final(send_packet_ctx_a) == *old(send_packet_ctx_a) && *final(token_ctx_a)
            == *old(token_ctx_a),
        r is Ok ==> transfer_send_post(*old(send_packet_ctx_a), *final(send_packet_ctx_a), *msg)
            && transfer_token_post(*old(token_ctx_a), *final(token_ctx_a), *msg),
{
    match send_transfer_validate(send_packet_ctx_a, token_ctx_a, msg) {
        Ok(()) => (),
        Err(e) => {
            return Err(e);
        },
    }
    proof {
        lemma_transfer_validate_then_execute(*send_packet_ctx_a, *token_ctx_a, *msg);
    }
    send_transfer_execute(send_packet_ctx_a, token_ctx_a, msg)
}

/// Law: validate/execute equivalence. When the transfer's validate phase
/// passes, the execute phase on the unchanged contexts also passes: every
/// check execute repeats (capability, channel, counterparty, account,
/// escrow or burn feasibility, sequence headroom) was already accepted by
/// validate, so execute cannot fail for a reason validate checked.
pub proof fn lemma_transfer_validate_then_execute(
    sctx: SendPacketContext,
    tctx: TokenContext,
    msg: MsgTransfer,
)
    requires
        spec_transfer_step(sctx, tctx, msg) == TransferStep::Pass,
    ensures
        spec_transfer_execute_step(sctx, tctx, msg) == TransferStep::Pass,
{
}

/// Law: no channel, no send. When the source channel is missing, or its
/// counterparty channel id is not yet known, both phases decide the
/// corresponding not-found error; by the contracts of
/// `send_transfer_validate` and `send_transfer_execute` the returned error
/// is that variant, and a failing execute leaves both contexts — in
/// particular every sequence counter — unchanged.
pub proof fn lemma_transfer_no_channel_no_send(
    sctx: SendPacketContext,
    tctx: TokenContext,
    msg: MsgTransfer,
)
    requires
        tctx.can_send,
    ensures
        !sctx.has_channel(msg.port_id_on_a@, msg.chan_id_on_a@) ==> spec_transfer_step(
            sctx,
            tctx,
            msg,
        ) == TransferStep::SourceChannelNotFound && spec_transfer_execute_step(sctx, tctx, msg)
            == TransferStep::SourceChannelNotFound,
        sctx.has_channel(msg.port_id_on_a@, msg.chan_id_on_a@) && !has_dest(sctx, msg)
            ==> spec_transfer_step(sctx, tctx, msg) == TransferStep::NoDestinationChannel
            && spec_transfer_execute_step(sctx, tctx, msg) == TransferStep::NoDestinationChannel,
{
}

/// Law: escrow/burn exclusivity. A successful execute records exactly one
/// token operation, and whether it is the escrow or the burn is decided
/// solely by the source predicate over the denomination trace and the
/// outbound (port, channel).
pub proof fn lemma_escrow_burn_exclusive(pre: TokenContext, post: TokenContext, msg: MsgTransfer)
    requires
        transfer_token_post(pre, post, msg),
    ensures
        post.ops@.len() == pre.ops@.len() + 1,
        sender_is_source(msg) <==> (post.ops@.last() matches crate::token::TokenOp::Escrow { .. }),
        !sender_is_source(msg) <==> (post.ops@.last() matches crate::token::TokenOp::Burn { .. }),
{
}

} // verus!
