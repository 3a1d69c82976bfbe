use rsil::capability::Capability;
use rsil::errors::{SilHandshakeError, SilStreamError};
use rsil::eth_snap::{
    eth_snap_layout, mask_snap, shared_in_name_order, shared_in_order, InboundFrame, SilSnapStream,
};
use rsil::ethstream::{SilStream, SilStreamInner, UnauthedEthStream, MAX_MESSAGE_SIZE};
use rsil::message::SilMessageID;
use rsil::protocol::Protocol;
use rsil::version::SilVersion;

fn shared_caps(protocols: Vec<Protocol>) -> Vec<rsil::eth_snap::SharedCapability> {
    shared_in_name_order(protocols).unwrap()
}

#[test]
fn eth_snap_layout_accepts_eth_then_snap() {
    let caps = shared_caps(vec![Protocol::sil(SilVersion::Sil68), Protocol::snap_2()]);
    let offset = eth_snap_layout(&caps).unwrap();
    assert_eq!(offset, caps[0].messages);
    assert_eq!(offset, 17);
}

#[test]
fn eth_snap_layout_rejects_missing_snap() {
    let caps = shared_caps(vec![Protocol::sil(SilVersion::Sil68)]);
    assert!(eth_snap_layout(&caps).is_err());
}

#[test]
fn eth_snap_layout_rejects_capability_before_eth() {
    // "aaa" sorts before "sil", so it takes relative offset 0 and sil no longer starts at 0.
    let cap = Capability::new_static("aaa", 1);
    let caps = shared_caps(vec![
        Protocol::new(cap, 5),
        Protocol::sil(SilVersion::Sil68),
        Protocol::snap_2(),
    ]);
    assert!(eth_snap_layout(&caps).is_err());
}

#[test]
fn eth_snap_layout_rejects_capability_between_eth_and_snap() {
    // "les" sorts before "sil", so it takes relative offset 0 and sil no longer starts at 0.
    let cap = Capability::new_static("les", 1);
    let caps = shared_caps(vec![
        Protocol::sil(SilVersion::Sil68),
        Protocol::new(cap, 5),
        Protocol::snap_2(),
    ]);
    assert!(eth_snap_layout(&caps).is_err());
}

#[test]
fn eth_snap_layout_rejects_capability_after_snap() {
    // "zzz" sorts after "snap"; its frames would be routed as snap, so the layout is refused.
    let cap = Capability::new_static("zzz", 1);
    let caps = shared_caps(vec![
        Protocol::sil(SilVersion::Sil68),
        Protocol::snap_2(),
        Protocol::new(cap, 5),
    ]);
    assert!(eth_snap_layout(&caps).is_err());
}

#[test]
fn mask_snap_rebases_into_combined_space() {
    let mut bytes = vec![8u8, 0xcc];
    mask_snap(&mut bytes, 17).unwrap();
    assert_eq!(bytes[0], 17 + 8);
}

#[test]
fn mask_snap_refuses_empty_and_overflow() {
    let mut empty: Vec<u8> = vec![];
    assert_eq!(mask_snap(&mut empty, 1), Err(SilStreamError::InvalidInput));
    let mut big = vec![250u8, 1];
    assert_eq!(mask_snap(&mut big, 17), Err(SilStreamError::InvalidInput));
    assert_eq!(big, vec![250u8, 1]);
}

#[test]
fn snap_stream_routes_by_offset() {
    let caps = shared_caps(vec![Protocol::sil(SilVersion::Sil69), Protocol::snap_2()]);
    let mut s = SilSnapStream::established(0u32, &caps, SilVersion::Sil69, MAX_MESSAGE_SIZE).unwrap();
    assert_eq!(s.version(), SilVersion::Sil69);
    let mut sil = vec![3u8, 0xc0];
    assert_eq!(s.route_inbound(&mut sil), Ok(InboundFrame::Sil));
    assert_eq!(sil, vec![3u8, 0xc0]);
    let mut snap = vec![18u8 + 9, 0xc0];
    assert_eq!(s.route_inbound(&mut snap), Ok(InboundFrame::Snap));
    assert_eq!(snap, vec![9u8, 0xc0]);
    let mut empty: Vec<u8> = vec![];
    assert_eq!(s.route_inbound(&mut empty), Err(SilStreamError::EmptyProtocolMessage));
    let mut out = vec![1u8];
    s.frame_snap(&mut out).unwrap();
    assert_eq!(out, vec![19u8]);
    assert_eq!(s.route_inbound(&mut out), Ok(InboundFrame::Snap));
    assert_eq!(out, vec![1u8]);
    s.set_reject_block_announcements(true);
    assert!(s.sil().screen_inbound(&[7u8]).is_err());
    *s.inner_mut() = 5;
    assert_eq!(*s.inner(), 5);
    assert_eq!(s.into_inner(), 5);
}

#[test]
fn snap_stream_needs_the_layout() {
    let caps = shared_caps(vec![Protocol::sil(SilVersion::Sil69)]);
    let r = SilSnapStream::established((), &caps, SilVersion::Sil69, MAX_MESSAGE_SIZE);
    assert!(matches!(r, Err(SilStreamError::CapabilityNotShared)));
}

#[test]
fn inner_screens_size_and_announcements() {
    let mut inner = SilStreamInner::with_max_message_size(SilVersion::Sil68, 4);
    assert_eq!(inner.version(), SilVersion::Sil68);
    assert_eq!(inner.max_message_size(), 4);
    assert_eq!(inner.screen_inbound(&[1, 2, 3, 4, 5]), Err(SilStreamError::MessageTooBig(5)));
    assert_eq!(inner.screen_inbound(&[7, 1]), Ok(()));
    inner.set_reject_block_announcements(true);
    assert_eq!(
        inner.screen_inbound(&[7, 1]),
        Err(SilStreamError::UnsupportedMessage { message_id: 7 })
    );
    assert_eq!(
        inner.screen_inbound(&[1]),
        Err(SilStreamError::UnsupportedMessage { message_id: 1 })
    );
    assert_eq!(inner.screen_inbound(&[2]), Ok(()));
    assert_eq!(inner.screen_inbound(&[]), Ok(()));
}

#[test]
fn inner_decides_on_decoded_messages() {
    let inner = SilStreamInner::new(SilVersion::Sil68);
    assert_eq!(inner.max_message_size(), MAX_MESSAGE_SIZE);
    assert_eq!(
        inner.decode_message(&[4], Some(SilMessageID::BlockHeaders)),
        Ok(SilMessageID::BlockHeaders)
    );
    assert_eq!(inner.decode_message(&[4], None), Err(SilStreamError::InvalidMessage));
    assert_eq!(
        inner.decode_message(&[0], Some(SilMessageID::Status)),
        Err(SilStreamError::SilHandshakeError(SilHandshakeError::StatusNotInHandshake))
    );
    assert_eq!(
        inner.encode_message(SilMessageID::Status),
        Err(SilStreamError::SilHandshakeError(SilHandshakeError::StatusNotInHandshake))
    );
    assert_eq!(inner.encode_message(SilMessageID::Transactions), Ok(()));
}

#[test]
fn streams_keep_their_transport() {
    let unauthed = UnauthedEthStream::new(vec![1u8]);
    let stream = unauthed.into_authed(SilVersion::Sil69);
    assert_eq!(stream.version(), SilVersion::Sil69);
    assert_eq!(stream.inner(), &vec![1u8]);
    let mut s = SilStream::with_max_message_size(SilVersion::Sil67, 3u8, 100);
    s.set_reject_block_announcements(true);
    assert_eq!(s.sil().max_message_size(), 100);
    *s.inner_mut() = 4;
    assert_eq!(s.into_inner(), 4);
    let u = UnauthedEthStream::new("x");
    assert_eq!(u.into_inner(), "x");
    assert_eq!(SilStream::new(SilVersion::Sil66, ()).sil().max_message_size(), MAX_MESSAGE_SIZE);
}

#[test]
fn shared_layout_refuses_ids_beyond_a_byte() {
    let big = Capability::new_static("big", 1);
    let fits = shared_in_order(vec![Protocol::new(big.clone(), 200), Protocol::new(big.clone(), 55)]);
    let fits = fits.unwrap();
    assert_eq!(fits[1].offset, 200);
    assert!(shared_in_order(vec![Protocol::new(big.clone(), 200), Protocol::new(big, 56)]).is_none());
    assert_eq!(shared_in_order(vec![]).map(|c| c.len()), Some(0));
}

#[test]
fn shared_capabilities_are_laid_out_in_name_order() {
    let caps = shared_caps(vec![Protocol::snap_2(), Protocol::sil(SilVersion::Sil68)]);
    assert_eq!(caps[0].cap, Capability::eth_68());
    assert_eq!(caps[1].offset, 17);
    assert_eq!(eth_snap_layout(&caps), Ok(17));
    let three = shared_caps(vec![
        Protocol::new(Capability::new_static("zzz", 1), 3),
        Protocol::new(Capability::new_static("aa", 1), 2),
        Protocol::new(Capability::new_static("a", 1), 4),
    ]);
    assert_eq!(three[0].cap.name, "a");
    assert_eq!(three[1].cap.name, "aa");
    assert_eq!(three[2].cap.name, "zzz");
    assert_eq!(three[2].offset, 6);
    let big = Capability::new_static("big", 1);
    assert!(shared_in_name_order(vec![Protocol::new(big.clone(), 200), Protocol::new(big, 56)]).is_none());
}
