//! Core logic of a cross-chain relayer: validated identifiers, the
//! connection and channel handshake state machines, the packet relay
//! worker, and the decoding of chain-manager command output.

pub mod errors;
pub mod identifier;
pub mod connection;
pub mod channel;
pub mod handshake;
pub mod packet;
pub mod worker;
pub mod connector;
pub mod transfer;
pub mod routing;
pub mod client;
pub mod bootstrap;
