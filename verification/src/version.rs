//! Versions of the `sil` sub-protocol, of the `snap` sub-protocol and of the `RLPx` `p2p`
//! protocol.

use vstd::prelude::*;
use vstd::string::*;
use crate::text::{decimal_text, u8_to_decimal};
use crate::rlp::{custom_rlp_error, rlp_custom_error, rlp_decode_u8, rlp_encode_uint, rlp_u8_prefix, rlp_uint};

verus! {

/// Error returned when a text or a byte does not name a known [`SilVersion`].
///
/// It carries the rejected input, as text.
#[derive(Debug, Clone, PartialEq, Eq)]
pub struct ParseVersionError(pub String);

impl ParseVersionError {
    /// The message of the error: the rejected input after a fixed prefix.
    pub fn message(&self) -> (r: String)
        ensures
            r@ == "Unknown sil protocol version: "@ + self.0@,
    {
        let mut m = String::from_str("Unknown sil protocol version: ");
        m.append(self.0.as_str());
        m
    }
}

/// The `sil` protocol version.
#[derive(Clone, Copy, Debug, Hash, PartialEq, Eq, Structural, PartialOrd, Ord)]
pub enum SilVersion {
    /// The `sil` protocol version 66.
    Sil66,
    /// The `sil` protocol version 67.
    Sil67,
    /// The `sil` protocol version 68.
    Sil68,
    /// The `sil` protocol version 69.
    Sil69,
    /// The `sil` protocol version 70 (partial block receipt lists).
    Sil70,
    /// The `sil` protocol version 71 (block access list exchange).
    Sil71,
    /// The `sil` protocol version 72 (sparse blobpool).
    Sil72,
}

/// The number that stands for a version on the wire.
pub open spec fn version_number(v: SilVersion) -> u8 {
    match v {
        SilVersion::Sil66 => 66,
        SilVersion::Sil67 => 67,
        SilVersion::Sil68 => 68,
        SilVersion::Sil69 => 69,
        SilVersion::Sil70 => 70,
        SilVersion::Sil71 => 71,
        SilVersion::Sil72 => 72,
    }
}

/// The version whose number is `u`, if there is one.
pub open spec fn version_from_number(u: u8) -> Option<SilVersion> {
    if u == 66 {
        Some(SilVersion::Sil66)
    } else if u == 67 {
        Some(SilVersion::Sil67)
    } else if u == 68 {
        Some(SilVersion::Sil68)
    } else if u == 69 {
        Some(SilVersion::Sil69)
    } else if u == 70 {
        Some(SilVersion::Sil70)
    } else if u == 71 {
        Some(SilVersion::Sil71)
    } else if u == 72 {
        Some(SilVersion::Sil72)
    } else {
        None
    }
}

/// The decimal text of a version number: two digits.
pub open spec fn version_text(v: SilVersion) -> Seq<char> {
    match v {
        SilVersion::Sil66 => seq!['6', '6'],
        SilVersion::Sil67 => seq!['6', '7'],
        SilVersion::Sil68 => seq!['6', '8'],
        SilVersion::Sil69 => seq!['6', '9'],
        SilVersion::Sil70 => seq!['7', '0'],
        SilVersion::Sil71 => seq!['7', '1'],
        SilVersion::Sil72 => seq!['7', '2'],
    }
}

/// The version whose decimal text is exactly `s`, if there is one.
pub open spec fn version_from_text(s: Seq<char>) -> Option<SilVersion> {
    if s == version_text(SilVersion::Sil66) {
        Some(SilVersion::Sil66)
    } else if s == version_text(SilVersion::Sil67) {
        Some(SilVersion::Sil67)
    } else if s == version_text(SilVersion::Sil68) {
        Some(SilVersion::Sil68)
    } else if s == version_text(SilVersion::Sil69) {
        Some(SilVersion::Sil69)
    } else if s == version_text(SilVersion::Sil70) {
        Some(SilVersion::Sil70)
    } else if s == version_text(SilVersion::Sil71) {
        Some(SilVersion::Sil71)
    } else if s == version_text(SilVersion::Sil72) {
        Some(SilVersion::Sil72)
    } else {
        None
    }
}

impl SilVersion {
    /// Returns true if the version is sil/66
    pub fn is_eth66(&self) -> (r: bool)
        ensures
            r <==> *self == SilVersion::Sil66,
    {
        matches!(self, SilVersion::Sil66)
    }

    /// Returns true if the version is sil/67
    pub fn is_eth67(&self) -> (r: bool)
        ensures
            r <==> *self == SilVersion::Sil67,
    {
        matches!(self, SilVersion::Sil67)
    }

    /// Returns true if the version is sil/68
    pub fn is_eth68(&self) -> (r: bool)
        ensures
            r <==> *self == SilVersion::Sil68,
    {
        matches!(self, SilVersion::Sil68)
    }

    /// Returns true if the version carries sil/68 transaction announcement metadata,
    /// that is if it is sil/68 or newer.
    pub fn has_eth68_metadata(&self) -> (r: bool)
        ensures
            r <==> version_number(*self) >= 68,
    {
        matches!(
            self,
            SilVersion::Sil68 | SilVersion::Sil69 | SilVersion::Sil70 | SilVersion::Sil71
                | SilVersion::Sil72
        )
    }

    /// Returns true if the version is sil/69
    pub fn is_eth69(&self) -> (r: bool)
        ensures
            r <==> *self == SilVersion::Sil69,
    {
        matches!(self, SilVersion::Sil69)
    }

    /// Returns true if the version is sil/70
    pub fn is_eth70(&self) -> (r: bool)
        ensures
            r <==> *self == SilVersion::Sil70,
    {
        matches!(self, SilVersion::Sil70)
    }

    /// Returns true if the version is sil/71
    pub fn is_eth71(&self) -> (r: bool)
        ensures
            r <==> *self == SilVersion::Sil71,
    {
        matches!(self, SilVersion::Sil71)
    }

    /// Returns true if the version is sil/72
    pub fn is_eth72(&self) -> (r: bool)
        ensures
            r <==> *self == SilVersion::Sil72,
    {
        matches!(self, SilVersion::Sil72)
    }

    /// Returns true if the version is sil/69 or newer.
    pub fn is_eth69_or_newer(&self) -> (r: bool)
        ensures
            r <==> version_number(*self) >= 69,
    {
        matches!(self, SilVersion::Sil69 | SilVersion::Sil70 | SilVersion::Sil71 | SilVersion::Sil72)
    }

    /// The latest known sil version.
    pub fn latest() -> (r: SilVersion)
        ensures
            r == SilVersion::Sil69,
    {
        SilVersion::Sil69
    }

    /// All known sil versions, newest first.
    pub fn all_versions() -> (r: Vec<SilVersion>)
        ensures
            r@ == seq![SilVersion::Sil69, SilVersion::Sil68, SilVersion::Sil67, SilVersion::Sil66],
    {
        vec![SilVersion::Sil69, SilVersion::Sil68, SilVersion::Sil67, SilVersion::Sil66]
    }

    /// The number that stands for this version on the wire.
    pub fn to_u8(&self) -> (r: u8)
        ensures
            r == version_number(*self),
    {
        match self {
            SilVersion::Sil66 => 66,
            SilVersion::Sil67 => 67,
            SilVersion::Sil68 => 68,
            SilVersion::Sil69 => 69,
            SilVersion::Sil70 => 70,
            SilVersion::Sil71 => 71,
            SilVersion::Sil72 => 72,
        }
    }

    /// The version with the given number, or an error that carries the number as decimal text.
    pub fn from_u8(u: u8) -> (r: Result<SilVersion, ParseVersionError>)
        ensures
            match version_from_number(u) {
                Some(v) => r == Ok::<SilVersion, ParseVersionError>(v),
                None => r matches Err(e) && e.0@ == decimal_text(u as nat),
            },
    {
        if u == 66 {
            Ok(SilVersion::Sil66)
        } else if u == 67 {
            Ok(SilVersion::Sil67)
        } else if u == 68 {
            Ok(SilVersion::Sil68)
        } else if u == 69 {
            Ok(SilVersion::Sil69)
        } else if u == 70 {
            Ok(SilVersion::Sil70)
        } else if u == 71 {
            Ok(SilVersion::Sil71)
        } else if u == 72 {
            Ok(SilVersion::Sil72)
        } else {
            Err(ParseVersionError(u8_to_decimal(u)))
        }
    }

    /// The version whose decimal text is exactly `s`, or an error that carries `s`.
    #[allow(clippy::should_implement_trait)]
    pub fn try_from(s: &str) -> (r: Result<SilVersion, ParseVersionError>)
        ensures
            match version_from_text(s@) {
                Some(v) => r == Ok::<SilVersion, ParseVersionError>(v),
                None => r matches Err(e) && e.0@ == s@,
            },
    {
        let n = s.unicode_len();
        if n == 2 {
            let a = s.get_char(0);
            let b = s.get_char(1);
            let ghost t = seq![a, b];
            assert(s@ =~= t);
            if a == '6' && b == '6' {
                return Ok(SilVersion::Sil66);
            } else if a == '6' && b == '7' {
                return Ok(SilVersion::Sil67);
            } else if a == '6' && b == '8' {
                return Ok(SilVersion::Sil68);
            } else if a == '6' && b == '9' {
                return Ok(SilVersion::Sil69);
            } else if a == '7' && b == '0' {
                return Ok(SilVersion::Sil70);
            } else if a == '7' && b == '1' {
                return Ok(SilVersion::Sil71);
            } else if a == '7' && b == '2' {
                return Ok(SilVersion::Sil72);
            }
        }
        Err(ParseVersionError(String::from_str(s)))
    }

    /// The decimal text of this version's number.
    pub fn as_str(&self) -> (r: &'static str)
        ensures
            r@ == version_text(*self),
    {
        proof {
            reveal_strlit("66");
            reveal_strlit("67");
            reveal_strlit("68");
            reveal_strlit("69");
            reveal_strlit("70");
            reveal_strlit("71");
            reveal_strlit("72");
        }
        match self {
            SilVersion::Sil66 => "66",
            SilVersion::Sil67 => "67",
            SilVersion::Sil68 => "68",
            SilVersion::Sil69 => "69",
            SilVersion::Sil70 => "70",
            SilVersion::Sil71 => "71",
            SilVersion::Sil72 => "72",
        }
    }
}


impl From<SilVersion> for u8 {
    /// The number of the version.
    fn from(v: SilVersion) -> (r: u8) {
        v.to_u8()
    }
}

impl vstd::std_specs::convert::FromSpecImpl<SilVersion> for u8 {
    open spec fn obeys_from_spec() -> bool {
        true
    }

    open spec fn from_spec(v: SilVersion) -> u8 {
        version_number(v)
    }
}

/// Error when RLP-decoding a version.
#[derive(Debug)]
pub enum VersionDecodeError {
    /// The input does not start with a well-formed RLP byte.
    Rlp(alloy_rlp::Error),
    /// The byte is not a known `sil` version.
    UnknownSilVersion,
    /// The byte is not a known `p2p` version.
    UnknownP2pVersion,
}

impl VersionDecodeError {
    /// The `alloy_rlp` error that stands for this error: the RLP error itself, or a custom
    /// error whose message names the unknown version.
    pub fn into_rlp(self) -> (r: alloy_rlp::Error)
        ensures
            r == (match self {
                VersionDecodeError::Rlp(e) => e,
                VersionDecodeError::UnknownSilVersion => custom_rlp_error("invalid sil version"@),
                VersionDecodeError::UnknownP2pVersion => custom_rlp_error(
                    "unknown p2p protocol version"@,
                ),
            }),
    {
        match self {
            VersionDecodeError::Rlp(e) => e,
            VersionDecodeError::UnknownSilVersion => rlp_custom_error("invalid sil version"),
            VersionDecodeError::UnknownP2pVersion => rlp_custom_error(
                "unknown p2p protocol version",
            ),
        }
    }
}

impl SilVersion {
    /// The RLP encoding of this version: the single byte of its number.
    pub fn rlp_encode(&self) -> (r: Vec<u8>)
        ensures
            r@ == rlp_uint(version_number(*self) as nat),
            r@ == seq![version_number(*self)],
    {
        let r = rlp_encode_uint(self.to_u8() as u64);
        r
    }

    /// The length of the RLP encoding of a version.
    pub fn rlp_length(&self) -> (r: usize)
        ensures
            r == rlp_uint(version_number(*self) as nat).len(),
    {
        1
    }

    /// Decodes a version from the front of `buf`; on success returns it with the number of
    /// bytes read.
    pub fn rlp_decode(buf: &[u8]) -> (r: Result<(SilVersion, usize), VersionDecodeError>)
        ensures
            match rlp_u8_prefix(buf@) {
                None => r matches Err(VersionDecodeError::Rlp(_)),
                Some((b, rest)) => match version_from_number(b) {
                    Some(v) => r == Ok::<(SilVersion, usize), VersionDecodeError>(
                        (v, (buf@.len() - rest) as usize),
                    ),
                    None => r matches Err(VersionDecodeError::UnknownSilVersion),
                },
            },
    {
        match rlp_decode_u8(buf) {
            Err(e) => Err(VersionDecodeError::Rlp(e)),
            Ok((b, rest)) => match SilVersion::from_u8(b) {
                Ok(v) => Ok((v, buf.len() - rest)),
                Err(_) => Err(VersionDecodeError::UnknownSilVersion),
            },
        }
    }
}

/// Reading back what `rlp_encode` wrote gives the same version, and reads the whole encoding,
/// whatever follows it.
pub proof fn lemma_sil_version_rlp_roundtrip(v: SilVersion, rest: Seq<u8>)
    ensures
        rlp_u8_prefix(seq![version_number(v)] + rest) == Some((version_number(v), rest.len())),
        version_from_number(version_number(v)) == Some(v),
{
    assert((seq![version_number(v)] + rest)[0] == version_number(v));
}

/// Parsing the text of a version gives the version back.
pub proof fn lemma_version_text_roundtrip(v: SilVersion)
    ensures
        version_from_text(version_text(v)) == Some(v),
{
}

/// Every byte that decodes to a version is the number of that version.
pub proof fn lemma_version_number_inverse(u: u8)
    ensures
        version_from_number(u) matches Some(v) ==> version_number(v) == u,
{
}

impl core::str::FromStr for SilVersion {
    type Err = ParseVersionError;

    /// The version whose decimal text is exactly `s`, or an error that carries `s`.
    fn from_str(s: &str) -> (r: Result<SilVersion, ParseVersionError>)
        ensures
            match version_from_text(s@) {
                Some(v) => r == Ok::<SilVersion, ParseVersionError>(v),
                None => r matches Err(e) && e.0@ == s@,
            },
    {
        SilVersion::try_from(s)
    }
}

/// `RLPx` `p2p` protocol version.
#[derive(Clone, Copy, Debug, PartialEq, Eq, Structural)]
pub enum ProtocolVersion {
    /// `p2p` version 4
    V4,
    /// `p2p` version 5
    V5,
}

/// The number of a `p2p` protocol version.
pub open spec fn p2p_version_number(v: ProtocolVersion) -> u8 {
    match v {
        ProtocolVersion::V4 => 4,
        ProtocolVersion::V5 => 5,
    }
}

impl ProtocolVersion {
    /// The default `p2p` version, version 5.
    pub fn default_version() -> (r: ProtocolVersion)
        ensures
            r == ProtocolVersion::V5,
    {
        ProtocolVersion::V5
    }

    /// The number of this version.
    pub fn to_u8(&self) -> (r: u8)
        ensures
            r == p2p_version_number(*self),
    {
        match self {
            ProtocolVersion::V4 => 4,
            ProtocolVersion::V5 => 5,
        }
    }

    /// The RLP encoding of this version: the single byte of its number.
    pub fn rlp_encode(&self) -> (r: Vec<u8>)
        ensures
            r@ == rlp_uint(p2p_version_number(*self) as nat),
            r@ == seq![p2p_version_number(*self)],
    {
        rlp_encode_uint(self.to_u8() as u64)
    }

    /// The length of the RLP encoding of a version.
    pub fn rlp_length(&self) -> (r: usize)
        ensures
            r == rlp_uint(p2p_version_number(*self) as nat).len(),
    {
        1
    }

    /// Decodes a `p2p` version from the front of `buf`; on success returns it with the number
    /// of bytes read.
    pub fn rlp_decode(buf: &[u8]) -> (r: Result<(ProtocolVersion, usize), VersionDecodeError>)
        ensures
            match rlp_u8_prefix(buf@) {
                None => r matches Err(VersionDecodeError::Rlp(_)),
                Some((b, rest)) => if b == 4 {
                    r == Ok::<(ProtocolVersion, usize), VersionDecodeError>(
                        (ProtocolVersion::V4, (buf@.len() - rest) as usize),
                    )
                } else if b == 5 {
                    r == Ok::<(ProtocolVersion, usize), VersionDecodeError>(
                        (ProtocolVersion::V5, (buf@.len() - rest) as usize),
                    )
                } else {
                    r matches Err(VersionDecodeError::UnknownP2pVersion)
                },
            },
    {
        match rlp_decode_u8(buf) {
            Err(e) => Err(VersionDecodeError::Rlp(e)),
            Ok((b, rest)) => if b == 4 {
                Ok((ProtocolVersion::V4, buf.len() - rest))
            } else if b == 5 {
                Ok((ProtocolVersion::V5, buf.len() - rest))
            } else {
                Err(VersionDecodeError::UnknownP2pVersion)
            },
        }
    }

    /// The display text of this version: `v4` or `v5`.
    pub fn as_str(&self) -> (r: &'static str)
        ensures
            r@ == (match *self {
                ProtocolVersion::V4 => seq!['v', '4'],
                ProtocolVersion::V5 => seq!['v', '5'],
            }),
    {
        proof {
            reveal_strlit("v4");
            reveal_strlit("v5");
        }
        match self {
            ProtocolVersion::V4 => "v4",
            ProtocolVersion::V5 => "v5",
        }
    }
}

/// Reading back what `rlp_encode` wrote gives the same `p2p` version.
pub proof fn lemma_p2p_version_rlp_roundtrip(v: ProtocolVersion, rest: Seq<u8>)
    ensures
        rlp_u8_prefix(seq![p2p_version_number(v)] + rest) == Some((p2p_version_number(v), rest.len())),
{
    assert((seq![p2p_version_number(v)] + rest)[0] == p2p_version_number(v));
}

/// The version of the `snap` sub-protocol.
#[derive(Clone, Copy, Debug, Hash, PartialEq, Eq, Structural)]
pub enum SnapVersion {
    /// `snap/1`
    V1,
    /// `snap/2`, which adds block access list exchange.
    V2,
}

/// The number of a `snap` version.
pub open spec fn snap_version_number(v: SnapVersion) -> u8 {
    match v {
        SnapVersion::V1 => 1,
        SnapVersion::V2 => 2,
    }
}

/// How many message ids a `snap` version uses.
pub open spec fn snap_message_count(v: SnapVersion) -> u8 {
    match v {
        SnapVersion::V1 => 8,
        SnapVersion::V2 => 10,
    }
}

impl SnapVersion {
    /// The number of this version.
    pub fn to_u8(&self) -> (r: u8)
        ensures
            r == snap_version_number(*self),
    {
        match self {
            SnapVersion::V1 => 1,
            SnapVersion::V2 => 2,
        }
    }

    /// The number of message ids this version uses.
    pub fn message_count(&self) -> (r: u8)
        ensures
            r == snap_message_count(*self),
    {
        match self {
            SnapVersion::V1 => 8,
            SnapVersion::V2 => 10,
        }
    }
}

} // verus!
