//! Verified core of the `sil` wire protocol and node RPC helpers.

pub mod balance_map;
pub mod bytes;
pub mod capability;
pub mod capability_rlp;
pub mod connection;
pub mod errors;
pub mod eth_snap;
pub mod ethstream;
pub mod handshake;
pub mod message;
pub mod node_api;
pub mod notifications;
pub mod payload;
pub mod pending;
pub mod protocol;
pub mod pubsub;
pub mod random;
pub mod rlp;
pub mod rpc_types;
pub mod rsil_api;
pub mod text;
pub mod version;
