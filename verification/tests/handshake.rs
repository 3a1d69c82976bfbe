use rsil::errors::{
    DisconnectReason, ForkId, ForkValidationError, SilHandshakeError, SilStreamError,
};
use rsil::handshake::{
    check_status, BlockRangeInfo, HandshakeOutcome, PeerResponse, SilHandshake, SilaEthHandshake,
    StatusInfo,
};
use rsil::version::SilVersion;

fn ours() -> StatusInfo {
    StatusInfo {
        version: SilVersion::Sil68,
        chain: 1,
        genesis: [7u8; 32],
        total_difficulty_bit_len: Some(100),
        block_range: None,
    }
}

fn message(status: StatusInfo) -> PeerResponse {
    PeerResponse::Message { len: 100, status: Some(status), fork_check: Ok(()) }
}

fn eth_handshake(ours: &StatusInfo, response: PeerResponse) -> HandshakeOutcome {
    let mut transport = Vec::<u8>::new();
    SilaEthHandshake(&mut transport).eth_handshake(ours, response)
}

fn stale() -> ForkValidationError {
    ForkValidationError::RemoteStale {
        local: ForkId { hash: [1, 2, 3, 4], next: 0 },
        remote: ForkId { hash: [9, 9, 9, 9], next: 10 },
    }
}

fn breach(e: SilHandshakeError) -> HandshakeOutcome {
    HandshakeOutcome::Rejected {
        error: SilStreamError::SilHandshakeError(e),
        disconnect: Some(DisconnectReason::ProtocolBreach),
    }
}

#[test]
fn can_handshake() {
    let theirs = ours();
    assert_eq!(eth_handshake(&ours(), message(theirs)), HandshakeOutcome::Accepted(theirs));
}

#[test]
fn pass_handshake_on_low_td_bitlen() {
    let theirs = StatusInfo { total_difficulty_bit_len: Some(160), ..ours() };
    assert_eq!(eth_handshake(&ours(), message(theirs)), HandshakeOutcome::Accepted(theirs));
}

#[test]
fn fail_handshake_on_high_td_bitlen() {
    let theirs = StatusInfo { total_difficulty_bit_len: Some(165), ..ours() };
    assert_eq!(
        eth_handshake(&ours(), message(theirs)),
        breach(SilHandshakeError::TotalDifficultyBitLenTooLarge { got: 165, maximum: 160 })
    );
}

#[test]
fn handshake_refuses_mismatches_in_order() {
    let theirs = StatusInfo { genesis: [8u8; 32], chain: 2, ..ours() };
    assert_eq!(
        eth_handshake(&ours(), message(theirs)),
        breach(SilHandshakeError::MismatchedGenesis { got: [8u8; 32], expected: ours().genesis })
    );
    let theirs = StatusInfo { version: SilVersion::Sil67, chain: 2, ..ours() };
    assert_eq!(
        eth_handshake(&ours(), message(theirs)),
        breach(SilHandshakeError::MismatchedProtocolVersion { got: 67, expected: 68 })
    );
    let theirs = StatusInfo { chain: 2, ..ours() };
    assert_eq!(
        eth_handshake(&ours(), message(theirs)),
        breach(SilHandshakeError::MismatchedChain { got: 2, expected: 1 })
    );
    let r = eth_handshake(
        &ours(),
        PeerResponse::Message { len: 10, status: Some(ours()), fork_check: Err(stale()) },
    );
    assert_eq!(r, breach(SilHandshakeError::InvalidFork(stale())));
}

#[test]
fn handshake_transport_outcomes() {
    assert_eq!(
        eth_handshake(&ours(), PeerResponse::Closed),
        HandshakeOutcome::Rejected {
            error: SilStreamError::SilHandshakeError(SilHandshakeError::NoResponse),
            disconnect: Some(DisconnectReason::DisconnectRequested),
        }
    );
    assert_eq!(
        eth_handshake(&ours(), PeerResponse::TransportError),
        HandshakeOutcome::TransportFailed
    );
    let big = rsil::ethstream::MAX_MESSAGE_SIZE + 1;
    assert_eq!(
        eth_handshake(
            &ours(),
            PeerResponse::Message { len: big, status: Some(ours()), fork_check: Ok(()) }
        ),
        HandshakeOutcome::Rejected {
            error: SilStreamError::MessageTooBig(big),
            disconnect: Some(DisconnectReason::ProtocolBreach),
        }
    );
    assert_eq!(
        eth_handshake(
            &ours(),
            PeerResponse::Message { len: 3, status: None, fork_check: Ok(()) }
        ),
        HandshakeOutcome::Rejected {
            error: SilStreamError::InvalidMessage,
            disconnect: Some(DisconnectReason::ProtocolBreach),
        }
    );
}

#[test]
fn handshake_checks_the_block_range_without_disconnecting() {
    let base = StatusInfo { version: SilVersion::Sil69, total_difficulty_bit_len: None, ..ours() };
    let us = base;
    let bad_range = StatusInfo {
        block_range: Some(BlockRangeInfo { earliest: 10, latest: 5, latest_hash_is_zero: false }),
        ..base
    };
    assert_eq!(
        eth_handshake(&us, message(bad_range)),
        HandshakeOutcome::Rejected {
            error: SilStreamError::SilHandshakeError(
                SilHandshakeError::EarliestBlockGreaterThanLatestBlock { got: 10, latest: 5 }
            ),
            disconnect: None,
        }
    );
    let zero_hash = StatusInfo {
        block_range: Some(BlockRangeInfo { earliest: 1, latest: 5, latest_hash_is_zero: true }),
        ..base
    };
    assert_eq!(
        eth_handshake(&us, message(zero_hash)),
        HandshakeOutcome::Rejected {
            error: SilStreamError::SilHandshakeError(SilHandshakeError::BlockhashZero),
            disconnect: None,
        }
    );
    let fine = StatusInfo {
        block_range: Some(BlockRangeInfo { earliest: 5, latest: 5, latest_hash_is_zero: false }),
        ..base
    };
    assert_eq!(eth_handshake(&us, message(fine)), HandshakeOutcome::Accepted(fine));
}

#[test]
fn handshake_times_out_without_disconnecting() {
    let mut transport = Vec::<u8>::new();
    assert_eq!(
        SilHandshake.handshake(&mut transport, &ours(), None),
        HandshakeOutcome::Rejected { error: SilStreamError::StreamTimeout, disconnect: None }
    );
    assert_eq!(
        SilHandshake.handshake(&mut transport, &ours(), Some(message(ours()))),
        HandshakeOutcome::Accepted(ours())
    );
}

#[test]
fn status_check_accepts_a_matching_peer() {
    assert_eq!(check_status(&ours(), ours(), Ok(())), HandshakeOutcome::Accepted(ours()));
    assert_eq!(
        check_status(&ours(), ours(), Err(stale())),
        breach(SilHandshakeError::InvalidFork(stale()))
    );
}
