//! Errors of the `sil` streams and of the status handshake.

use vstd::prelude::*;

verus! {

/// Why a peer is disconnected.
#[derive(Clone, Copy, Debug, PartialEq, Eq, Structural)]
pub enum DisconnectReason {
    /// The disconnect was requested by the local side.
    DisconnectRequested,
    /// The peer broke the protocol.
    ProtocolBreach,
}

/// A fork identifier: a checksum of the forks passed so far and the block or time of the next
/// one (zero where none is known).
#[derive(Clone, Copy, Debug, PartialEq, Eq)]
pub struct ForkId {
    /// The checksum of the genesis and the forks passed.
    pub hash: [u8; 4],
    /// The block number or timestamp of the next fork, zero where none is known.
    pub next: u64,
}

/// Why our fork filter refuses a peer's fork id.
#[derive(Clone, Copy, Debug, PartialEq, Eq)]
pub enum ForkValidationError {
    /// The peer is on a fork that we already passed and does not know of our later forks.
    RemoteStale {
        /// Our fork id.
        local: ForkId,
        /// The peer's fork id.
        remote: ForkId,
    },
    /// The peer's fork id is not compatible with ours, or we are stale.
    LocalIncompatibleOrStale {
        /// Our fork id.
        local: ForkId,
        /// The peer's fork id.
        remote: ForkId,
    },
}

/// Errors of the `sil` status handshake.
#[allow(inconsistent_fields)]
#[derive(Clone, Copy, Debug, PartialEq, Eq)]
pub enum SilHandshakeError {
    /// A status message arrived after the handshake.
    StatusNotInHandshake,
    /// The peer closed the stream without answering.
    NoResponse,
    /// The peer is on another genesis block.
    MismatchedGenesis {
        /// The genesis hash the peer sent.
        got: [u8; 32],
        /// Our genesis hash.
        expected: [u8; 32],
    },
    /// The peer speaks another `sil` version.
    MismatchedProtocolVersion {
        /// The version the peer sent.
        got: u8,
        /// The version we sent.
        expected: u8,
    },
    /// The peer is on another chain.
    MismatchedChain {
        /// The chain id the peer sent.
        got: u64,
        /// Our chain id.
        expected: u64,
    },
    /// The peer's total difficulty does not fit in 160 bits.
    TotalDifficultyBitLenTooLarge {
        /// The bit length the peer sent.
        got: u64,
        /// The largest accepted bit length.
        maximum: u64,
    },
    /// The peer's fork id is not valid for our chain; carries why.
    InvalidFork(ForkValidationError),
    /// The peer's earliest available block is above its latest block.
    EarliestBlockGreaterThanLatestBlock {
        /// The earliest block the peer sent.
        got: u64,
        /// The latest block the peer sent.
        latest: u64,
    },
    /// The peer's latest block hash is zero.
    BlockhashZero,
}

/// Errors of the `sil` streams.
#[derive(Clone, Copy, Debug, PartialEq, Eq)]
pub enum SilStreamError {
    /// A message is larger than the configured limit; carries its size.
    MessageTooBig(usize),
    /// A message with this id is rejected before decoding.
    UnsupportedMessage {
        /// The id of the rejected message.
        message_id: u8,
    },
    /// A message could not be decoded.
    InvalidMessage,
    /// A message arrived without any byte.
    EmptyProtocolMessage,
    /// The capabilities needed by the stream are not shared with the peer.
    CapabilityNotShared,
    /// A message id does not fit in the combined message-id space.
    InvalidInput,
    /// The handshake did not finish in time.
    StreamTimeout,
    /// The status handshake failed.
    SilHandshakeError(SilHandshakeError),
}

} // verus!
