use alloy_rlp::Error as RlpError;
use rsil::version::{ProtocolVersion, SilVersion, SnapVersion};

#[test]
fn test_eth_version_try_from_str() {
    assert_eq!(SilVersion::Sil66, SilVersion::try_from("66").unwrap());
    assert_eq!(SilVersion::Sil67, SilVersion::try_from("67").unwrap());
    assert_eq!(SilVersion::Sil68, SilVersion::try_from("68").unwrap());
    assert_eq!(SilVersion::Sil69, SilVersion::try_from("69").unwrap());
    assert_eq!(SilVersion::Sil70, SilVersion::try_from("70").unwrap());
    assert_eq!(SilVersion::Sil71, SilVersion::try_from("71").unwrap());
    assert_eq!(SilVersion::Sil72, SilVersion::try_from("72").unwrap());
}

#[test]
fn test_eth_version_from_str() {
    assert_eq!(SilVersion::Sil66, "66".parse().unwrap());
    assert_eq!(SilVersion::Sil67, "67".parse().unwrap());
    assert_eq!(SilVersion::Sil68, "68".parse().unwrap());
    assert_eq!(SilVersion::Sil69, "69".parse().unwrap());
    assert_eq!(SilVersion::Sil70, "70".parse().unwrap());
    assert_eq!(SilVersion::Sil71, "71".parse().unwrap());
    assert_eq!(SilVersion::Sil72, "72".parse().unwrap());
}

#[test]
fn test_has_eth68_metadata() {
    assert!(!SilVersion::Sil66.has_eth68_metadata());
    assert!(!SilVersion::Sil67.has_eth68_metadata());
    assert!(SilVersion::Sil68.has_eth68_metadata());
    assert!(SilVersion::Sil69.has_eth68_metadata());
    assert!(SilVersion::Sil70.has_eth68_metadata());
    assert!(SilVersion::Sil71.has_eth68_metadata());
    assert!(SilVersion::Sil72.has_eth68_metadata());
}

#[test]
fn test_eth_version_rlp_encode() {
    let versions = [
        SilVersion::Sil66,
        SilVersion::Sil67,
        SilVersion::Sil68,
        SilVersion::Sil69,
        SilVersion::Sil70,
        SilVersion::Sil71,
        SilVersion::Sil72,
    ];

    for version in versions {
        let encoded = version.rlp_encode();

        assert_eq!(encoded.len(), 1);
        assert_eq!(encoded[0], version.to_u8());
    }
}

#[test]
fn test_eth_version_rlp_decode() {
    let test_cases = [
        (66_u8, Ok(SilVersion::Sil66)),
        (67_u8, Ok(SilVersion::Sil67)),
        (68_u8, Ok(SilVersion::Sil68)),
        (69_u8, Ok(SilVersion::Sil69)),
        (70_u8, Ok(SilVersion::Sil70)),
        (71_u8, Ok(SilVersion::Sil71)),
        (72_u8, Ok(SilVersion::Sil72)),
        (65_u8, Err(RlpError::Custom("invalid sil version"))),
    ];

    for (input, expected) in test_cases {
        let encoded = alloy_rlp::encode(input);

        let result = SilVersion::rlp_decode(&encoded).map(|(v, _)| v).map_err(|e| e.into_rlp());
        assert_eq!(result, expected);
    }
}

#[test]
fn version_decode_reads_one_byte_and_leaves_the_rest() {
    let buf = [68u8, 0xaa, 0xbb];
    let (v, read) = SilVersion::rlp_decode(&buf).unwrap();
    assert_eq!(v, SilVersion::Sil68);
    assert_eq!(read, 1);
}

#[test]
fn version_decode_refuses_malformed_rlp() {
    // a leading zero byte, an empty input and a list are not versions
    assert!(matches!(
        SilVersion::rlp_decode(&[0u8]),
        Err(rsil::version::VersionDecodeError::Rlp(_))
    ));
    assert!(matches!(SilVersion::rlp_decode(&[]), Err(rsil::version::VersionDecodeError::Rlp(_))));
    assert!(matches!(
        SilVersion::rlp_decode(&[0xc1, 66]),
        Err(rsil::version::VersionDecodeError::Rlp(_))
    ));
    // zero decodes as a byte but is no version
    assert!(matches!(
        SilVersion::rlp_decode(&[0x80]),
        Err(rsil::version::VersionDecodeError::UnknownSilVersion)
    ));
}

#[test]
fn version_from_u8_and_errors_carry_the_input() {
    assert_eq!(SilVersion::from_u8(67).unwrap(), SilVersion::Sil67);
    assert_eq!(SilVersion::from_u8(65).unwrap_err().0, "65");
    assert_eq!(SilVersion::from_u8(255).unwrap_err().0, "255");
    assert_eq!(SilVersion::from_u8(0).unwrap_err().0, "0");
    assert_eq!(SilVersion::try_from("6").unwrap_err().0, "6");
    assert_eq!(SilVersion::try_from("066").unwrap_err().0, "066");
    assert!("abc".parse::<SilVersion>().is_err());
}

#[test]
fn version_predicates() {
    assert!(SilVersion::Sil66.is_eth66());
    assert!(!SilVersion::Sil67.is_eth66());
    assert!(SilVersion::Sil67.is_eth67());
    assert!(SilVersion::Sil68.is_eth68());
    assert!(SilVersion::Sil69.is_eth69());
    assert!(SilVersion::Sil70.is_eth70());
    assert!(SilVersion::Sil71.is_eth71());
    assert!(SilVersion::Sil72.is_eth72());
    assert!(!SilVersion::Sil68.is_eth69_or_newer());
    assert!(SilVersion::Sil69.is_eth69_or_newer());
    assert!(SilVersion::Sil72.is_eth69_or_newer());
    assert_eq!(SilVersion::latest(), SilVersion::Sil69);
    assert_eq!(
        SilVersion::all_versions(),
        vec![SilVersion::Sil69, SilVersion::Sil68, SilVersion::Sil67, SilVersion::Sil66]
    );
    assert_eq!(SilVersion::Sil70.as_str(), "70");
    assert!(SilVersion::Sil66 < SilVersion::Sil72);
}

#[test]
fn p2p_version_rlp_roundtrip() {
    for v in [ProtocolVersion::V4, ProtocolVersion::V5] {
        let enc = v.rlp_encode();
        assert_eq!(enc, vec![v.to_u8()]);
        let (d, read) = ProtocolVersion::rlp_decode(&enc).unwrap();
        assert_eq!(d, v);
        assert_eq!(read, 1);
    }
    assert_eq!(ProtocolVersion::default_version(), ProtocolVersion::V5);
    assert_eq!(ProtocolVersion::V4.as_str(), "v4");
    let err = ProtocolVersion::rlp_decode(&[6]).unwrap_err().into_rlp();
    assert_eq!(err, RlpError::Custom("unknown p2p protocol version"));
}

#[test]
fn snap_versions() {
    assert_eq!(SnapVersion::V2.to_u8(), 2);
    assert_eq!(SnapVersion::V2.message_count(), 10);
    assert_eq!(SnapVersion::V1.message_count(), 8);
}

#[test]
fn version_rlp_lengths_and_decimal_text() {
    assert_eq!(SilVersion::Sil70.rlp_length(), 1);
    assert_eq!(ProtocolVersion::V5.rlp_length(), 1);
    assert_eq!(rsil::text::u64_to_decimal(0), "0");
    assert_eq!(rsil::text::u64_to_decimal(1234567890), "1234567890");
    assert_eq!(rsil::text::u64_to_decimal(u64::MAX), u64::MAX.to_string());
    assert_eq!(rsil::text::u8_to_decimal(255), "255");
    assert_eq!(rsil::text::usize_to_decimal(42), "42");
}

#[test]
fn parse_errors_name_the_input() {
    let err = SilVersion::try_from("65").unwrap_err();
    assert_eq!(err.message(), "Unknown sil protocol version: 65");
    assert_eq!(SilVersion::from_u8(7).unwrap_err().message(), "Unknown sil protocol version: 7");
}

#[test]
fn version_converts_to_its_number() {
    let n: u8 = SilVersion::Sil71.into();
    assert_eq!(n, 71);
    assert_eq!(u8::from(SilVersion::Sil66), 66);
}

#[test]
fn parse_refuses_unknown_text() {
    let err = "6".parse::<SilVersion>().unwrap_err();
    assert_eq!(err.0, "6");
    assert_eq!("72".parse::<SilVersion>(), Ok(SilVersion::Sil72));
    assert_eq!(
        rsil::version::VersionDecodeError::UnknownSilVersion.into_rlp(),
        RlpError::Custom("invalid sil version")
    );
}
