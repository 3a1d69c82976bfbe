use rsil::connection::SilRlpxConnection;
use rsil::errors::{DisconnectReason, SilHandshakeError, SilStreamError};
use rsil::eth_snap::{shared_in_order, SilSnapStream};
use rsil::ethstream::{SilStream, MAX_MESSAGE_SIZE};
use rsil::message::SilMessageID;
use rsil::protocol::Protocol;
use rsil::version::SilVersion;

#[test]
fn connection_variants() {
    let mut only: SilRlpxConnection<u32> = SilRlpxConnection::SilOnly(SilStream::new(SilVersion::Sil68, 1));
    assert_eq!(only.version(), SilVersion::Sil68);
    assert!(!only.supports_snap());
    let mut request = vec![1u8, 0xc0];
    assert_eq!(only.start_send_snap(&mut request), Err(SilStreamError::CapabilityNotShared));
    assert_eq!(request, vec![1u8, 0xc0]);
    only.set_reject_block_announcements(true);
    *only.inner_mut() = 2;
    assert_eq!(*only.inner(), 2);
    assert_eq!(only.into_inner(), 2);

    let caps = shared_in_order(vec![Protocol::sil(SilVersion::Sil69), Protocol::snap_2()]).unwrap();
    let snap = SilSnapStream::established(7u32, &caps, SilVersion::Sil69, MAX_MESSAGE_SIZE).unwrap();
    let conn = SilRlpxConnection::SilSnap(snap);
    assert!(conn.supports_snap());
    let mut request = vec![1u8, 0xc0];
    assert_eq!(conn.start_send_snap(&mut request), Ok(()));
    assert_eq!(request, vec![19u8, 0xc0]);
    let mut empty: Vec<u8> = vec![];
    assert_eq!(conn.start_send_snap(&mut empty), Err(SilStreamError::InvalidInput));
    assert_eq!(conn.version(), SilVersion::Sil69);
    assert_eq!(conn.into_inner(), 7);

    let sat: SilRlpxConnection<u32> = SilRlpxConnection::Satellite(SilStream::new(SilVersion::Sil70, 3));
    let mut request = vec![1u8];
    assert_eq!(sat.start_send_snap(&mut request), Err(SilStreamError::CapabilityNotShared));
    assert_eq!(sat.version(), SilVersion::Sil70);
}

#[test]
fn status_after_handshake_triggers_disconnect() {
    let s = SilStream::new(SilVersion::Sil68, ());
    assert_eq!(
        s.check_outbound(SilMessageID::Status),
        Err((
            SilStreamError::SilHandshakeError(SilHandshakeError::StatusNotInHandshake),
            DisconnectReason::ProtocolBreach
        ))
    );
    assert_eq!(s.check_outbound(SilMessageID::GetBlockHeaders), Ok(()));
}
