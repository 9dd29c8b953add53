//! Core logic of a relay-mediated peer-to-peer chat client.
//!
//! The crate verifies the pieces of the client that decide and compute:
//! identity derivation from a user secret, the connection-establishment
//! state machine, the wire codec for chat messages, the gossip message
//! identity used for de-duplication, the bounded channels that carry text
//! between the network task and the interface, and the interface's own
//! list-navigation and key-handling state. Network and terminal I/O live
//! outside the library and drive it through plain values.

pub mod channel;
pub mod codec;
pub mod establish;
pub mod identity;
pub mod pump;
pub mod text;
pub mod view;
