//! Channel ends: the handshake-established pairing between two ports and
//! channels on two chains, with its ordering mode and state.

use vstd::prelude::*;

verus! {

/// Handshake state of a channel end. Packets may flow only through an
/// `Open` channel.
#[derive(Clone, Copy, Debug, PartialEq, Eq, Structural)]
pub enum ChannelState {
    Uninitialized,
    Init,
    TryOpen,
    Open,
    Closed,
}

/// Ordering mode negotiated during the channel handshake.
#[derive(Clone, Copy, Debug, PartialEq, Eq, Structural)]
pub enum Order {
    Unordered,
    Ordered,
}

/// The counterparty of a channel end. The counterparty channel id is absent
/// until the handshake has progressed far enough to learn it.
#[derive(Debug)]
pub struct Counterparty {
    pub port_id: String,
    pub channel_id: Option<String>,
}

/// One end of a handshake-established channel.
#[derive(Debug)]
pub struct ChannelEnd {
    pub state: ChannelState,
    pub ordering: Order,
    pub counterparty: Counterparty,
}

impl ChannelEnd {
    /// Builds a channel end from its parts.
    pub fn new(state: ChannelState, ordering: Order, counterparty: Counterparty) -> (r: ChannelEnd)
        ensures
            r.state == state,
            r.ordering == ordering,
            r.counterparty == counterparty,
    {
        ChannelEnd { state, ordering, counterparty }
    }

    /// A channel admits packet traffic only while it is open.
    pub fn is_open(&self) -> (r: bool)
        ensures
            r == (self.state == ChannelState::Open),
    {
        match self.state {
            ChannelState::Open => true,
            _ => false,
        }
    }

    /// Read access to the counterparty identifiers.
    pub fn counterparty(&self) -> (r: &Counterparty)
        ensures
            r == &self.counterparty,
    {
        &self.counterparty
    }
}

} // verus!
