//! The decisions of a node: the coordinator of a network, its peers and its RPC endpoint.
//!
//! The library performs no input or output. Sockets, channels, timers and the
//! ledger belong to the program around it, which hands plain values in and
//! carries out the actions that come back.

pub mod block;
pub mod block_locators;
pub mod bytes;
pub mod coordinated_peer;
pub mod coordinator;
pub mod coordinator_laws;
pub mod coordinator_server;
pub mod json;
pub mod locator_laws;
pub mod locator_reader;
pub mod message;
pub mod peer_laws;
pub mod peers;
pub mod rpc;
pub mod rpc_laws;
pub mod text;
pub mod view_laws;
