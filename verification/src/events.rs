//! The event surface: structured domain events emitted by the packet
//! pipeline and the transfer application, with stable field names for
//! downstream indexing.

use crate::denom::PrefixedDenom;
use vstd::prelude::*;

verus! {

/// A domain event recorded by the execution context.
#[derive(Debug)]
pub enum Event {
    /// A packet was committed for sending.
    SendPacket { port_id_on_a: String, chan_id_on_a: String, seq_on_a: u64 },
    /// A token transfer was initiated.
    Transfer { sender: String, receiver: String, denom: PrefixedDenom, amount: u64, memo: String },
    /// A message was processed by the named module.
    Message { module: String },
}

} // verus!
