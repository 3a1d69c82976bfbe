//! The decisions of the `sil` status handshake.
//!
//! The handshake sends our status, waits for the peer's answer and then validates it. The
//! sending, the waiting and the decoding happen on the transport; this module decides what the
//! answer means: the peer's status, or an error together with whether to disconnect.

use vstd::prelude::*;
use crate::bytes::hash_eq;
use crate::errors::{DisconnectReason, ForkValidationError, SilHandshakeError, SilStreamError};
use crate::ethstream::MAX_MESSAGE_SIZE;
use crate::version::{version_number, SilVersion};

verus! {

/// The block range a peer announces in an `sil/69` or newer status.
#[derive(Clone, Copy, Debug, PartialEq, Eq, Structural)]
pub struct BlockRangeInfo {
    /// The earliest block the peer can serve.
    pub earliest: u64,
    /// The latest block of the peer.
    pub latest: u64,
    /// Whether the hash of the latest block is zero.
    pub latest_hash_is_zero: bool,
}

/// What the handshake reads of a status message.
#[derive(Clone, Copy, Debug, PartialEq, Eq)]
pub struct StatusInfo {
    /// The `sil` version.
    pub version: SilVersion,
    /// The chain id.
    pub chain: u64,
    /// The genesis block hash.
    pub genesis: [u8; 32],
    /// The bit length of the total difficulty, in a legacy (before `sil/69`) status.
    pub total_difficulty_bit_len: Option<u64>,
    /// The announced block range, in an `sil/69` or newer status.
    pub block_range: Option<BlockRangeInfo>,
}

/// The peer's answer to our status, as the transport and the decoder saw it.
#[derive(Clone, Copy, Debug, PartialEq, Eq)]
pub enum PeerResponse {
    /// The stream ended without a message.
    Closed,
    /// The transport returned an error.
    TransportError,
    /// A message arrived.
    Message {
        /// Its length in bytes.
        len: usize,
        /// The decoded status, or `None` where it did not decode as a status.
        status: Option<StatusInfo>,
        /// What our fork filter says of the peer's fork id: accepted, or why it is refused.
        fork_check: Result<(), ForkValidationError>,
    },
}

/// The result of the handshake.
#[derive(Clone, Copy, Debug, PartialEq, Eq)]
pub enum HandshakeOutcome {
    /// The peer's status is accepted.
    Accepted(StatusInfo),
    /// The transport failed; its error is passed on.
    TransportFailed,
    /// The peer is refused with this error; the stream is first disconnected for the given
    /// reason, where there is one.
    Rejected {
        /// The error returned.
        error: SilStreamError,
        /// Why the peer is disconnected before the error is returned, if it is.
        disconnect: Option<DisconnectReason>,
    },
}

/// The largest accepted bit length of a legacy total difficulty.
pub const MAX_TOTAL_DIFFICULTY_BITS: u64 = 160;

/// A refusal that first disconnects the peer for a protocol breach.
pub open spec fn breach(e: SilHandshakeError) -> HandshakeOutcome {
    HandshakeOutcome::Rejected {
        error: SilStreamError::SilHandshakeError(e),
        disconnect: Some(DisconnectReason::ProtocolBreach),
    }
}

/// What the handshake decides on the peer's decoded status, checked in this order: genesis,
/// version, chain, legacy total difficulty, fork id, then the block range of a newer status
/// (whose failures are returned without a disconnect).
pub open spec fn status_outcome(
    ours: StatusInfo,
    theirs: StatusInfo,
    fork_check: Result<(), ForkValidationError>,
)
    -> HandshakeOutcome {
    if ours.genesis != theirs.genesis {
        breach(
            SilHandshakeError::MismatchedGenesis { got: theirs.genesis, expected: ours.genesis },
        )
    } else if ours.version != theirs.version {
        breach(
            SilHandshakeError::MismatchedProtocolVersion {
                got: version_number(theirs.version),
                expected: version_number(ours.version),
            },
        )
    } else if ours.chain != theirs.chain {
        breach(SilHandshakeError::MismatchedChain { got: theirs.chain, expected: ours.chain })
    } else if theirs.total_difficulty_bit_len matches Some(bits) && bits
        > MAX_TOTAL_DIFFICULTY_BITS {
        breach(
            SilHandshakeError::TotalDifficultyBitLenTooLarge {
                got: theirs.total_difficulty_bit_len.unwrap(),
                maximum: MAX_TOTAL_DIFFICULTY_BITS,
            },
        )
    } else if fork_check is Err {
        breach(SilHandshakeError::InvalidFork(fork_check->Err_0))
    } else if theirs.block_range matches Some(range) && range.earliest > range.latest {
        HandshakeOutcome::Rejected {
            error: SilStreamError::SilHandshakeError(
                SilHandshakeError::EarliestBlockGreaterThanLatestBlock {
                    got: theirs.block_range.unwrap().earliest,
                    latest: theirs.block_range.unwrap().latest,
                },
            ),
            disconnect: None,
        }
    } else if theirs.block_range matches Some(range) && range.latest_hash_is_zero {
        HandshakeOutcome::Rejected {
            error: SilStreamError::SilHandshakeError(SilHandshakeError::BlockhashZero),
            disconnect: None,
        }
    } else {
        HandshakeOutcome::Accepted(theirs)
    }
}

/// What the handshake decides on the peer's answer: a closed stream, a transport error, a
/// message that is too big or does not decode, or else the decision on the decoded status.
pub open spec fn handshake_outcome(ours: StatusInfo, response: PeerResponse) -> HandshakeOutcome {
    match response {
        PeerResponse::Closed => HandshakeOutcome::Rejected {
            error: SilStreamError::SilHandshakeError(SilHandshakeError::NoResponse),
            disconnect: Some(DisconnectReason::DisconnectRequested),
        },
        PeerResponse::TransportError => HandshakeOutcome::TransportFailed,
        PeerResponse::Message { len, status, fork_check } => if len > MAX_MESSAGE_SIZE {
            HandshakeOutcome::Rejected {
                error: SilStreamError::MessageTooBig(len),
                disconnect: Some(DisconnectReason::ProtocolBreach),
            }
        } else {
            match status {
                None => HandshakeOutcome::Rejected {
                    error: SilStreamError::InvalidMessage,
                    disconnect: Some(DisconnectReason::ProtocolBreach),
                },
                Some(theirs) => status_outcome(ours, theirs, fork_check),
            }
        },
    }
}

/// Validates the peer's decoded status against ours.
pub fn check_status(
    ours: &StatusInfo,
    theirs: StatusInfo,
    fork_check: Result<(), ForkValidationError>,
) -> (r:
    HandshakeOutcome)
    ensures
        r == status_outcome(*ours, theirs, fork_check),
{
    if !hash_eq(&ours.genesis, &theirs.genesis) {
        return HandshakeOutcome::Rejected {
            error: SilStreamError::SilHandshakeError(
                SilHandshakeError::MismatchedGenesis {
                    got: theirs.genesis,
                    expected: ours.genesis,
                },
            ),
            disconnect: Some(DisconnectReason::ProtocolBreach),
        };
    }
    if ours.version != theirs.version {
        return HandshakeOutcome::Rejected {
            error: SilStreamError::SilHandshakeError(
                SilHandshakeError::MismatchedProtocolVersion {
                    got: theirs.version.to_u8(),
                    expected: ours.version.to_u8(),
                },
            ),
            disconnect: Some(DisconnectReason::ProtocolBreach),
        };
    }
    if ours.chain != theirs.chain {
        return HandshakeOutcome::Rejected {
            error: SilStreamError::SilHandshakeError(
                SilHandshakeError::MismatchedChain { got: theirs.chain, expected: ours.chain },
            ),
            disconnect: Some(DisconnectReason::ProtocolBreach),
        };
    }
    if let Some(bits) = theirs.total_difficulty_bit_len {
        if bits > MAX_TOTAL_DIFFICULTY_BITS {
            return HandshakeOutcome::Rejected {
                error: SilStreamError::SilHandshakeError(
                    SilHandshakeError::TotalDifficultyBitLenTooLarge {
                        got: bits,
                        maximum: MAX_TOTAL_DIFFICULTY_BITS,
                    },
                ),
                disconnect: Some(DisconnectReason::ProtocolBreach),
            };
        }
    }
    if let Err(fork_error) = fork_check {
        return HandshakeOutcome::Rejected {
            error: SilStreamError::SilHandshakeError(SilHandshakeError::InvalidFork(fork_error)),
            disconnect: Some(DisconnectReason::ProtocolBreach),
        };
    }
    if let Some(range) = theirs.block_range {
        if range.earliest > range.latest {
            return HandshakeOutcome::Rejected {
                error: SilStreamError::SilHandshakeError(
                    SilHandshakeError::EarliestBlockGreaterThanLatestBlock {
                        got: range.earliest,
                        latest: range.latest,
                    },
                ),
                disconnect: None,
            };
        }
        if range.latest_hash_is_zero {
            return HandshakeOutcome::Rejected {
                error: SilStreamError::SilHandshakeError(SilHandshakeError::BlockhashZero),
                disconnect: None,
            };
        }
    }
    HandshakeOutcome::Accepted(theirs)
}

/// The `sil` status handshake over a borrowed stream.
pub struct SilaEthHandshake<'a, S>(pub &'a mut S);

impl<'a, S> SilaEthHandshake<'a, S> {
    /// Decides on the peer's answer to our status, sent over the wrapped stream.
    pub fn eth_handshake(self, ours: &StatusInfo, response: PeerResponse) -> (r: HandshakeOutcome)
        ensures
            r == handshake_outcome(*ours, response),
    {
        match response {
            PeerResponse::Closed => HandshakeOutcome::Rejected {
                error: SilStreamError::SilHandshakeError(SilHandshakeError::NoResponse),
                disconnect: Some(DisconnectReason::DisconnectRequested),
            },
            PeerResponse::TransportError => HandshakeOutcome::TransportFailed,
            PeerResponse::Message { len, status, fork_check } => {
                if len > MAX_MESSAGE_SIZE {
                    return HandshakeOutcome::Rejected {
                        error: SilStreamError::MessageTooBig(len),
                        disconnect: Some(DisconnectReason::ProtocolBreach),
                    };
                }
                match status {
                    None => HandshakeOutcome::Rejected {
                        error: SilStreamError::InvalidMessage,
                        disconnect: Some(DisconnectReason::ProtocolBreach),
                    },
                    Some(theirs) => check_status(ours, theirs, fork_check),
                }
            },
        }
    }
}

/// The `sil` status handshake, bounded by a timeout.
#[derive(Debug, Default, Clone)]
pub struct SilHandshake;

impl SilHandshake {
    /// Runs the handshake on `unauth`: the peer's answer if it came in time (`None` where the
    /// timeout elapsed first, which fails the handshake without a disconnect).
    pub fn handshake<S>(&self, unauth: &mut S, ours: &StatusInfo, response: Option<PeerResponse>) -> (r:
        HandshakeOutcome)
        ensures
            r == (match response {
                Some(answer) => handshake_outcome(*ours, answer),
                None => HandshakeOutcome::Rejected {
                    error: SilStreamError::StreamTimeout,
                    disconnect: None,
                },
            }),
    {
        match response {
            Some(answer) => SilaEthHandshake(unauth).eth_handshake(ours, answer),
            None => HandshakeOutcome::Rejected { error: SilStreamError::StreamTimeout, disconnect: None },
        }
    }
}

/// An accepted peer is on our genesis, our version and our chain, and its fork id is valid.
pub proof fn lemma_accepted_peer_matches(ours: StatusInfo, response: PeerResponse)
    requires
        handshake_outcome(ours, response) is Accepted,
    ensures
        response matches PeerResponse::Message { len, status, fork_check } && fork_check is Ok && len
            <= MAX_MESSAGE_SIZE && status == Some(handshake_outcome(ours, response)->0),
        handshake_outcome(ours, response)->0.genesis == ours.genesis,
        handshake_outcome(ours, response)->0.version == ours.version,
        handshake_outcome(ours, response)->0.chain == ours.chain,
{
}

/// Every refusal disconnects the peer, except the two checks on the block range of a newer
/// status.
pub proof fn lemma_rejections_disconnect(ours: StatusInfo, response: PeerResponse)
    requires
        handshake_outcome(ours, response) matches HandshakeOutcome::Rejected { error, disconnect }
            && disconnect is None,
    ensures
        handshake_outcome(ours, response) matches HandshakeOutcome::Rejected { error, .. } && (
        error matches SilStreamError::SilHandshakeError(
            SilHandshakeError::EarliestBlockGreaterThanLatestBlock { .. },
        ) || error == SilStreamError::SilHandshakeError(SilHandshakeError::BlockhashZero)),
{
}

} // verus!
