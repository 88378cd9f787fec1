//! The protocol core of a game server that speaks a RakNet-derived transport
//! over UDP and, inside it, the packets of a legacy game client: bit-exact
//! codecs for both packet families, the connection registry, and the
//! decisions of the dispatch loop, each with its contract.

use vstd::prelude::*;

/// Fixed-width integers as bytes.
pub mod bytes;
/// Fields, their shapes and their encodings, shared by both packet families.
pub mod codec;
/// Source addresses and the connection ids given to them.
pub mod connection;
/// The fixed byte sequences of the protocol.
pub mod constants;
/// The frames that carry game packets inside a `Custom` transport packet.
pub mod encapsulation;
/// The application-level packets.
pub mod game_packets;
/// The transport packets.
pub mod packets;
/// Values registered under names, in order of registration.
pub mod registry;
/// The server's state and its answers to packets.
pub mod server;
/// The 24-bit unsigned integer of the wire format.
pub mod u24;

verus! {

} // verus!
