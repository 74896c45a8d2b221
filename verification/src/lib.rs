//! Core protocol engine for cross-chain packet relay: a validate-then-execute
//! send-packet pipeline over handshake-established channels, a token-transfer
//! application on top of it, a light-client consensus-state model with a
//! verified wire codec, and the closed-set dispatch planning that routes
//! client-state capability calls.

pub mod channel;
pub mod codec;
pub mod consensus_state;
pub mod context;
pub mod denom;
pub mod dispatch;
pub mod errors;
pub mod events;
pub mod packet;
pub mod send_packet;
pub mod timestamp;
pub mod token;
pub mod transfer;
pub mod utils;
