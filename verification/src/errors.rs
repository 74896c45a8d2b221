//! Closed enumerations of error kinds, one per component. Every fallible
//! step returns its error immediately; nothing is retried inside the core.

use vstd::prelude::*;

verus! {

/// Errors of the send-packet pipeline.
#[derive(Debug)]
pub enum PacketError {
    /// No channel end is stored under the given (port, channel).
    ChannelNotFound { port_id: String, channel_id: String },
    /// The channel end exists but is not in the `Open` state.
    ChannelNotOpen,
    /// The packet's destination does not match the channel's counterparty.
    InvalidPacketCounterparty { port_id: String, channel_id: String },
    /// The packet's timeout height is not strictly in the future of the
    /// counterparty's latest known height.
    LowPacketHeight,
    /// The packet's timeout timestamp is not strictly in the future of the
    /// counterparty's latest known time.
    LowPacketTimestamp,
    /// The packet's sequence is not the channel's next-send sequence.
    MismatchedPacketSequence { expected: u64, actual: u64 },
    /// The send counter cannot advance past the largest machine sequence.
    SequenceOverflow,
}

/// Errors of the light-client component.
#[derive(Debug)]
pub enum ClientError {
    /// A consensus-state envelope was decoded, but the header it must
    /// carry is absent.
    MissingRawConsensusState,
    /// The envelope's type tag names no known consensus-state kind.
    UnknownConsensusStateType { consensus_state_type: String },
    /// The envelope's bytes are not a consensus-state encoding at all.
    DecodingFailure { description: String },
}

/// Errors of the token-transfer application.
#[derive(Debug)]
pub enum TokenTransferError {
    /// The host has disabled sending coins.
    SendDisabled,
    /// The channel's counterparty channel id is not yet known.
    DestinationChannelNotFound { port_id: String, channel_id: String },
    /// The sender account string could not be parsed.
    ParseAccountFailure,
    /// No escrow account is configured for the (port, channel).
    EscrowAccountNotFound { port_id: String, channel_id: String },
    /// The debited account holds less of the denomination than the amount.
    InsufficientFunds,
    /// Crediting the amount would overflow the receiving balance.
    BalanceOverflow,
    /// A failure surfaced by the send-packet pipeline.
    Packet(PacketError),
}

} // verus!
