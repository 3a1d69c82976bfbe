use rsil::capability::{Capabilities, Capability, RawCapabilityMessage};
use rsil::message::SilMessageID;
use rsil::protocol::Protocol;
use rsil::version::{SilVersion, SnapVersion};

#[test]
fn test_protocol_eth_message_count() {
    assert_eq!(Protocol::sil(SilVersion::Sil66).messages(), 17);
    assert_eq!(Protocol::sil(SilVersion::Sil67).messages(), 17);
    assert_eq!(Protocol::sil(SilVersion::Sil68).messages(), 17);
    assert_eq!(Protocol::sil(SilVersion::Sil69).messages(), 18);
    assert_eq!(Protocol::sil(SilVersion::Sil70).messages(), 18);
    assert_eq!(Protocol::sil(SilVersion::Sil71).messages(), 20);
    assert_eq!(Protocol::snap(SnapVersion::V2).messages(), 10);
}

#[test]
fn protocol_constructors_and_split() {
    let p = Protocol::eth_68();
    assert_eq!(p.cap, Capability::eth_68());
    assert_eq!(p.messages(), 17);
    let (cap, n) = Protocol::snap_2().split();
    assert_eq!(cap, Capability::snap_2());
    assert_eq!(n, 10);
    assert_eq!(Protocol::eth_66().messages(), 17);
    assert_eq!(Protocol::eth_67().messages(), 17);
    let custom = Protocol::new(Capability::new_static("les", 1), 5);
    assert_eq!(custom.messages(), 5);
    assert_eq!(custom.cap.name, "les");
}

#[test]
fn capability_constructors() {
    let c = Capability::eth_71();
    assert_eq!(c.name, "sil");
    assert_eq!(c.version, 71);
    assert_eq!(Capability::snap_2().name, "snap");
    assert_eq!(Capability::snap_2().version, 2);
    assert_eq!(Capability::new("sil".to_string(), 66), Capability::eth_66());
    assert_eq!(Capability::sil(SilVersion::Sil72), Capability::eth_72());
    assert_eq!(Capability::eth_67().display_text(), "sil/67");
}

#[test]
fn capability_version_checks() {
    assert!(Capability::eth_66().is_eth_v66());
    assert!(!Capability::eth_66().is_eth_v67());
    assert!(Capability::eth_67().is_eth_v67());
    assert!(Capability::eth_68().is_eth_v68());
    assert!(Capability::eth_69().is_eth_v69());
    assert!(Capability::eth_70().is_eth_v70());
    assert!(Capability::eth_71().is_eth_v71());
    assert!(Capability::eth_72().is_eth_v72());
    assert!(Capability::eth_70().is_eth());
    assert!(!Capability::new_static("sil", 65).is_eth());
    assert!(!Capability::new_static("sil", 73).is_eth());
    assert!(!Capability::new_static("snap", 68).is_eth());
    assert!(!Capability::new_static("sill", 68).is_eth_v68());
}

#[test]
fn capabilities_support_is_additive() {
    let caps = Capabilities::new(vec![Capability::eth_71(), Capability::snap_2()]);
    assert!(caps.supports_eth());
    assert!(caps.supports_eth_v71());
    assert!(!caps.supports_eth_v70());
    for v in [
        SilVersion::Sil66,
        SilVersion::Sil67,
        SilVersion::Sil68,
        SilVersion::Sil69,
        SilVersion::Sil70,
        SilVersion::Sil71,
    ] {
        assert!(caps.supports_eth_at_least(&v));
    }
    assert!(!caps.supports_eth_at_least(&SilVersion::Sil72));
    assert_eq!(caps.capabilities().len(), 2);
    assert_eq!(caps.into_inner(), vec![Capability::eth_71(), Capability::snap_2()]);
}

#[test]
fn capabilities_exact_flags() {
    let caps = Capabilities::new(vec![Capability::eth_66(), Capability::eth_68()]);
    assert!(caps.supports_eth_v66());
    assert!(!caps.supports_eth_v67());
    assert!(caps.supports_eth_v68());
    assert!(!caps.supports_eth_v69());
    assert!(caps.supports_eth_at_least(&SilVersion::Sil67));
    assert!(!caps.supports_eth_at_least(&SilVersion::Sil69));
    let none = Capabilities::new(vec![Capability::snap_2()]);
    assert!(!none.supports_eth());
    let empty = Capabilities::new(vec![]);
    assert!(!empty.supports_eth_at_least(&SilVersion::Sil66));
}

#[test]
fn raw_capability_message_encoding() {
    let m = RawCapabilityMessage::sil(SilMessageID::Receipts, vec![0xc0]);
    assert_eq!(m.id, 0x10);
    assert_eq!(m.encoded(), vec![0x10, 0xc0]);
    let zero = RawCapabilityMessage::new(0, vec![1, 2]);
    assert_eq!(zero.encoded(), vec![0x80, 1, 2]);
    let big = RawCapabilityMessage::new(0x1234, vec![]);
    assert_eq!(big.encoded(), vec![0x82, 0x12, 0x34]);
    let byte = RawCapabilityMessage::new(0x80, vec![7]);
    assert_eq!(byte.encoded(), vec![0x81, 0x80, 7]);
}

#[test]
fn message_counts_per_version() {
    assert_eq!(SilMessageID::message_count(SilVersion::Sil72), 22);
    assert_eq!(SilMessageID::NewBlock.to_u8(), 7);
    assert_eq!(SilMessageID::NewBlockHashes.to_u8(), 1);
}

#[test]
fn raw_capability_message_decode_roundtrip() {
    for id in [0usize, 1, 0x7f, 0x80, 0xff, 0x1234, 1 << 40] {
        let m = RawCapabilityMessage::new(id, vec![0xc1, 0x05]);
        let enc = m.encoded();
        assert_eq!(m.length(), enc.len());
        let d = RawCapabilityMessage::decode(&enc).unwrap();
        assert_eq!(d, m);
    }
    assert!(RawCapabilityMessage::decode(&[]).is_err());
    // a leading zero and a non-canonical single byte are refused
    assert!(RawCapabilityMessage::decode(&[0x82, 0x00, 0x01]).is_err());
    assert!(RawCapabilityMessage::decode(&[0x81, 0x05]).is_err());
    assert!(RawCapabilityMessage::decode(&[0x00]).is_err());
    let d = RawCapabilityMessage::decode(&[0x05]).unwrap();
    assert_eq!(d.id, 5);
    assert!(d.payload.is_empty());
}

#[test]
fn capabilities_rlp_encoding_is_a_list_of_name_version_lists() {
    let caps = Capabilities::new(vec![Capability::eth_68(), Capability::snap_2()]);
    let mut out = vec![0xaa];
    caps.encode(&mut out);
    assert_eq!(
        out,
        vec![
            0xaa, 0xcd, 0xc5, 0x83, b's', b'i', b'l', 0x44, 0xc6, 0x84, b's', b'n', b'a', b'p',
            0x02,
        ]
    );
    assert_eq!(
        Capability::eth_68().encode(),
        vec![0xc5, 0x83, b's', b'i', b'l', 0x44]
    );
    assert_eq!(alloy_rlp::encode(68usize), vec![0x44]);
}

#[test]
fn capabilities_rlp_decoding_reads_back_what_was_written() {
    let caps = Capabilities::new(vec![
        Capability::eth_67(),
        Capability::new("x".repeat(60), 300),
        Capability::snap_2(),
    ]);
    let mut out = Vec::new();
    caps.encode(&mut out);
    out.push(0x01);
    let (back, read) = Capabilities::decode(&out).unwrap();
    assert_eq!(read, out.len() - 1);
    assert_eq!(back.capabilities(), caps.capabilities());
    assert!(back.supports_eth_v67());
    assert!(!back.supports_eth_v68());

    let (empty, read) = Capabilities::decode(&[0xc0]).unwrap();
    assert!(empty.capabilities().is_empty());
    assert_eq!(read, 1);

    let (one, read) = Capability::decode(&[0xc5, 0x83, b's', b'i', b'l', 0x44, 0x09]).unwrap();
    assert_eq!(one, Capability::eth_68());
    assert_eq!(read, 6);
}

#[test]
fn capabilities_rlp_decoding_refuses_malformed_input() {
    assert_eq!(
        Capabilities::decode(&[0x83, b's', b'i', b'l']).err(),
        Some(alloy_rlp::Error::UnexpectedString)
    );
    assert_eq!(
        Capability::decode(&[0xc6, 0x83, b's', b'i', b'l', 0x44, 0x00]).err(),
        Some(alloy_rlp::Error::ListLengthMismatch { expected: 6, got: 5 })
    );
    assert!(Capabilities::decode(&[]).is_err());
    assert!(Capabilities::decode(&[0xc2, 0xc5]).is_err());
    assert!(Capability::decode(&[0xc3, 0x81, 0xff, 0x01]).is_err());
    assert!(Capability::decode(&[0xc2, 0x83, b's']).is_err());
}

#[test]
fn capabilities_clone_and_from_keep_the_list() {
    let caps = Capabilities::from(vec![Capability::eth_69(), Capability::snap_2()]);
    assert!(caps.supports_eth_v69());
    assert!(!caps.supports_eth_v68());
    let copy = caps.clone();
    assert_eq!(copy, caps);
    assert_eq!(copy.capabilities(), caps.capabilities());
    assert!(copy.supports_eth_at_least(&SilVersion::Sil66));
}

#[test]
fn protocol_from_version_is_the_sil_protocol() {
    let p: Protocol = SilVersion::Sil69.into();
    assert_eq!(p.messages(), 18);
    assert_eq!(p, Protocol::sil(SilVersion::Sil69));
    assert_eq!(p.cap, Capability::eth_69());
}
