//! Capabilities: a sub-protocol name with a version, and the set a peer advertises.

use vstd::prelude::*;
use vstd::string::*;
use crate::message::{message_id_byte, SilMessageID};
use crate::rlp::{lemma_rlp_u64_roundtrip, rlp_decode_usize, rlp_encode_uint, rlp_u64_prefix, rlp_uint};
use crate::text::{decimal_text, usize_to_decimal};
use crate::version::{snap_version_number, version_number, SilVersion, SnapVersion};

verus! {

/// The name of the `sil` sub-protocol.
pub open spec fn sil_name() -> Seq<char> {
    seq!['s', 'i', 'l']
}

/// The name of the `snap` sub-protocol.
pub open spec fn snap_name() -> Seq<char> {
    seq!['s', 'n', 'a', 'p']
}

/// A message of a sub-protocol: the message id followed by its encoded payload.
#[derive(Debug, Clone, PartialEq, Eq)]
pub struct RawCapabilityMessage {
    /// Identifier of the message.
    pub id: usize,
    /// The encoded payload.
    pub payload: Vec<u8>,
}

impl RawCapabilityMessage {
    /// Creates a new capability message with the given id and payload.
    pub fn new(id: usize, payload: Vec<u8>) -> (r: RawCapabilityMessage)
        ensures
            r.id == id,
            r.payload@ == payload@,
    {
        RawCapabilityMessage { id, payload }
    }

    /// Creates a raw message of the `sil` sub-protocol.
    pub fn sil(id: SilMessageID, payload: Vec<u8>) -> (r: RawCapabilityMessage)
        ensures
            r.id == message_id_byte(id),
            r.payload@ == payload@,
    {
        RawCapabilityMessage::new(id.to_u8() as usize, payload)
    }

    /// Encodes this message: the RLP encoding of the id followed by the payload as it is.
    pub fn encoded(&self) -> (r: Vec<u8>)
        ensures
            r@ == rlp_uint(self.id as nat) + self.payload@,
    {
        let mut out = rlp_encode_uint(self.id as u64);
        let mut i: usize = 0;
        let ghost head = out@;
        while i < self.payload.len()
            invariant
                i <= self.payload.len(),
                head == rlp_uint(self.id as nat),
                out@ == head + self.payload@.subrange(0, i as int),
            decreases self.payload.len() - i,
        {
            out.push(self.payload[i]);
            i = i + 1;
            assert(out@ =~= head + self.payload@.subrange(0, i as int));
        }
        assert(self.payload@.subrange(0, i as int) =~= self.payload@);
        out
    }
}

/// The message that a buffer decodes to: its leading RLP number as the id, where it fits a
/// `usize`, and every byte after it as the payload.
pub open spec fn raw_message_decoding(buf: Seq<u8>) -> Option<(nat, Seq<u8>)> {
    match rlp_u64_prefix(buf) {
        Some((id, read)) => if id <= usize::MAX {
            Some((id as nat, buf.subrange(read as int, buf.len() as int)))
        } else {
            None
        },
        None => None,
    }
}

impl RawCapabilityMessage {
    /// The length of the encoded message.
    pub fn length(&self) -> (r: usize)
        requires
            self.payload@.len() + 9 <= usize::MAX,
        ensures
            r == rlp_uint(self.id as nat).len() + self.payload@.len(),
    {
        let id = rlp_encode_uint(self.id as u64);
        proof {
            crate::rlp::lemma_rlp_uint_len(self.id as u64);
        }
        id.len() + self.payload.len()
    }

    /// Decodes a message: the leading RLP number is the id and everything after it is the
    /// payload.
    pub fn decode(buf: &[u8]) -> (r: Result<RawCapabilityMessage, alloy_rlp::Error>)
        ensures
            match raw_message_decoding(buf@) {
                None => r is Err,
                Some((id, payload)) => r matches Ok(m) && m.id == id && m.payload@ == payload,
            },
    {
        let (id, rest) = rlp_decode_usize(buf)?;
        let start = buf.len() - rest;
        let mut payload: Vec<u8> = Vec::new();
        let mut i = start;
        while i < buf.len()
            invariant
                start <= i <= buf.len(),
                payload@ == buf@.subrange(start as int, i as int),
            decreases buf.len() - i,
        {
            payload.push(buf[i]);
            i = i + 1;
            assert(payload@ =~= buf@.subrange(start as int, i as int));
        }
        Ok(RawCapabilityMessage { id, payload })
    }
}

/// Decoding an encoded raw capability message gives back its id and payload.
pub proof fn lemma_raw_message_roundtrip(m: RawCapabilityMessage)
    ensures
        raw_message_decoding(rlp_uint(m.id as nat) + m.payload@) == Some(
            (m.id as nat, m.payload@),
        ),
{
    let e = rlp_uint(m.id as nat);
    lemma_rlp_u64_roundtrip(m.id as u64, m.payload@);
    assert((e + m.payload@).subrange(e.len() as int, (e + m.payload@).len() as int) =~= m.payload@);
}

/// A supported sub-protocol and its version.
#[derive(Clone, Debug, PartialEq, Eq, Hash, Default)]
pub struct Capability {
    /// The name of the sub-protocol.
    pub name: String,
    /// The version of the sub-protocol.
    pub version: usize,
}

/// Whether a capability is `sil` at the given version.
pub open spec fn is_sil_at(c: Capability, v: nat) -> bool {
    c.name@ == sil_name() && c.version == v
}

/// Whether a capability is `sil` at a version from 66 to 72.
pub open spec fn is_known_sil(c: Capability) -> bool {
    c.name@ == sil_name() && 66 <= c.version <= 72
}

/// Whether a string is exactly `sil`.
pub(crate) fn is_sil_text(s: &String) -> (r: bool)
    ensures
        r == (s@ == sil_name()),
{
    let t = s.as_str();
    let n = t.unicode_len();
    if n != 3 {
        return false;
    }
    let a = t.get_char(0);
    let b = t.get_char(1);
    let c = t.get_char(2);
    assert(t@ =~= seq![a, b, c]);
    a == 's' && b == 'i' && c == 'l'
}

/// Whether a string is exactly `snap`.
pub(crate) fn is_snap_text(s: &String) -> (r: bool)
    ensures
        r == (s@ == snap_name()),
{
    let t = s.as_str();
    let n = t.unicode_len();
    if n != 4 {
        return false;
    }
    let a = t.get_char(0);
    let b = t.get_char(1);
    let c = t.get_char(2);
    let d = t.get_char(3);
    assert(t@ =~= seq![a, b, c, d]);
    a == 's' && b == 'n' && c == 'a' && d == 'p'
}

impl Capability {
    /// Creates a capability with the given name and version.
    pub fn new(name: String, version: usize) -> (r: Capability)
        ensures
            r.name == name,
            r.version == version,
    {
        Capability { name, version }
    }

    /// Creates a capability with the given static name and version.
    pub fn new_static(name: &'static str, version: usize) -> (r: Capability)
        ensures
            r.name@ == name@,
            r.version == version,
    {
        Capability { name: String::from_str(name), version }
    }

    /// The `sil` capability of the given version.
    pub fn sil(version: SilVersion) -> (r: Capability)
        ensures
            r.name@ == sil_name(),
            r.version == version_number(version),
    {
        proof {
            reveal_strlit("sil");
        }
        Capability::new_static("sil", version.to_u8() as usize)
    }

    /// The `snap` capability of the given version.
    pub fn snap(version: SnapVersion) -> (r: Capability)
        ensures
            r.name@ == snap_name(),
            r.version == snap_version_number(version),
    {
        proof {
            reveal_strlit("snap");
        }
        Capability::new_static("snap", version.to_u8() as usize)
    }

    /// The `sil/66` capability.
    pub fn eth_66() -> (r: Capability)
        ensures
            is_sil_at(r, 66),
    {
        Capability::sil(SilVersion::Sil66)
    }

    /// The `sil/67` capability.
    pub fn eth_67() -> (r: Capability)
        ensures
            is_sil_at(r, 67),
    {
        Capability::sil(SilVersion::Sil67)
    }

    /// The `sil/68` capability.
    pub fn eth_68() -> (r: Capability)
        ensures
            is_sil_at(r, 68),
    {
        Capability::sil(SilVersion::Sil68)
    }

    /// The `sil/69` capability.
    pub fn eth_69() -> (r: Capability)
        ensures
            is_sil_at(r, 69),
    {
        Capability::sil(SilVersion::Sil69)
    }

    /// The `sil/70` capability.
    pub fn eth_70() -> (r: Capability)
        ensures
            is_sil_at(r, 70),
    {
        Capability::sil(SilVersion::Sil70)
    }

    /// The `sil/71` capability.
    pub fn eth_71() -> (r: Capability)
        ensures
            is_sil_at(r, 71),
    {
        Capability::sil(SilVersion::Sil71)
    }

    /// The `sil/72` capability.
    pub fn eth_72() -> (r: Capability)
        ensures
            is_sil_at(r, 72),
    {
        Capability::sil(SilVersion::Sil72)
    }

    /// The `snap/2` capability.
    pub fn snap_2() -> (r: Capability)
        ensures
            r.name@ == snap_name(),
            r.version == 2,
    {
        Capability::snap(SnapVersion::V2)
    }

    /// Whether this is `sil` at the given version.
    fn is_eth_at(&self, v: usize) -> (r: bool)
        ensures
            r == is_sil_at(*self, v as nat),
    {
        self.version == v && is_sil_text(&self.name)
    }

    /// Whether this is sil v66.
    pub fn is_eth_v66(&self) -> (r: bool)
        ensures
            r == is_sil_at(*self, 66),
    {
        self.is_eth_at(66)
    }

    /// Whether this is sil v67.
    pub fn is_eth_v67(&self) -> (r: bool)
        ensures
            r == is_sil_at(*self, 67),
    {
        self.is_eth_at(67)
    }

    /// Whether this is sil v68.
    pub fn is_eth_v68(&self) -> (r: bool)
        ensures
            r == is_sil_at(*self, 68),
    {
        self.is_eth_at(68)
    }

    /// Whether this is sil v69.
    pub fn is_eth_v69(&self) -> (r: bool)
        ensures
            r == is_sil_at(*self, 69),
    {
        self.is_eth_at(69)
    }

    /// Whether this is sil v70.
    pub fn is_eth_v70(&self) -> (r: bool)
        ensures
            r == is_sil_at(*self, 70),
    {
        self.is_eth_at(70)
    }

    /// Whether this is sil v71.
    pub fn is_eth_v71(&self) -> (r: bool)
        ensures
            r == is_sil_at(*self, 71),
    {
        self.is_eth_at(71)
    }

    /// Whether this is sil v72.
    pub fn is_eth_v72(&self) -> (r: bool)
        ensures
            r == is_sil_at(*self, 72),
    {
        self.is_eth_at(72)
    }

    /// Whether this is any known sil version (66 to 72).
    pub fn is_eth(&self) -> (r: bool)
        ensures
            r == is_known_sil(*self),
    {
        self.is_eth_v66() || self.is_eth_v67() || self.is_eth_v68() || self.is_eth_v69()
            || self.is_eth_v70() || self.is_eth_v71() || self.is_eth_v72()
    }

    /// The display text of this capability: the name, a slash, and the version in decimal.
    pub fn display_text(&self) -> (r: String)
        ensures
            r@ == self.name@ + seq!['/'] + decimal_text(self.version as nat),
    {
        let mut s = self.name.clone();
        s.append("/");
        proof {
            reveal_strlit("/");
        }
        let d = usize_to_decimal(self.version);
        s.append(d.as_str());
        s
    }
}

/// Whether some capability of the list is `sil` at the given version.
pub open spec fn has_eth_version(caps: Seq<Capability>, v: nat) -> bool {
    exists|i: int| 0 <= i < caps.len() && #[trigger] is_sil_at(caps[i], v)
}

/// Whether some capability of the list is `sil` at a version from `v` to 72.
pub open spec fn has_eth_at_least(caps: Seq<Capability>, v: nat) -> bool {
    exists|i: int|
        0 <= i < caps.len() && (#[trigger] caps[i]).name@ == sil_name() && v <= caps[i].version <= 72
}

/// All capabilities of a node, with which `sil` versions among them are supported.
#[derive(Debug, PartialEq, Eq)]
pub struct Capabilities {
    inner: Vec<Capability>,
    eth_66: bool,
    eth_67: bool,
    eth_68: bool,
    eth_69: bool,
    eth_70: bool,
    eth_71: bool,
    eth_72: bool,
}

impl View for Capabilities {
    type V = Seq<Capability>;

    closed spec fn view(&self) -> Seq<Capability> {
        self.inner@
    }
}

/// Whether any capability of the vector is `sil` at version `v`.
fn any_eth_version(caps: &Vec<Capability>, v: usize) -> (r: bool)
    ensures
        r == has_eth_version(caps@, v as nat),
{
    let mut i: usize = 0;
    while i < caps.len()
        invariant
            i <= caps.len(),
            forall|j: int| 0 <= j < i ==> !#[trigger] is_sil_at(caps@[j], v as nat),
        decreases caps.len() - i,
    {
        if caps[i].is_eth_at(v) {
            return true;
        }
        i = i + 1;
    }
    false
}

impl Capabilities {
    #[verifier::type_invariant]
    closed spec fn flags_match(self) -> bool {
        &&& self.eth_66 == has_eth_version(self.inner@, 66)
        &&& self.eth_67 == has_eth_version(self.inner@, 67)
        &&& self.eth_68 == has_eth_version(self.inner@, 68)
        &&& self.eth_69 == has_eth_version(self.inner@, 69)
        &&& self.eth_70 == has_eth_version(self.inner@, 70)
        &&& self.eth_71 == has_eth_version(self.inner@, 71)
        &&& self.eth_72 == has_eth_version(self.inner@, 72)
    }

    /// The capabilities of a node that advertises the given list.
    pub closed spec fn of_list(value: Vec<Capability>) -> Capabilities {
        Capabilities {
            inner: value,
            eth_66: has_eth_version(value@, 66),
            eth_67: has_eth_version(value@, 67),
            eth_68: has_eth_version(value@, 68),
            eth_69: has_eth_version(value@, 69),
            eth_70: has_eth_version(value@, 70),
            eth_71: has_eth_version(value@, 71),
            eth_72: has_eth_version(value@, 72),
        }
    }

    /// Creates the capabilities of a node from the list it advertises.
    pub fn new(value: Vec<Capability>) -> (r: Capabilities)
        ensures
            r@ == value@,
            r == Capabilities::of_list(value),
    {
        let eth_66 = any_eth_version(&value, 66);
        let eth_67 = any_eth_version(&value, 67);
        let eth_68 = any_eth_version(&value, 68);
        let eth_69 = any_eth_version(&value, 69);
        let eth_70 = any_eth_version(&value, 70);
        let eth_71 = any_eth_version(&value, 71);
        let eth_72 = any_eth_version(&value, 72);
        Capabilities { inner: value, eth_66, eth_67, eth_68, eth_69, eth_70, eth_71, eth_72 }
    }

    /// Returns true if this peer advertises an `sil` version that is at least `version`.
    ///
    /// This is not an exact-match check: newer `sil` versions imply support for the messages
    /// of all earlier ones.
    pub fn supports_eth_at_least(&self, version: &SilVersion) -> (r: bool)
        ensures
            r == has_eth_at_least(self@, version_number(*version) as nat),
    {
        proof {
            use_type_invariant(self);
            let caps = self.inner@;
            let n = version_number(*version) as nat;
            if has_eth_at_least(caps, n) {
                let i = choose|i: int|
                    0 <= i < caps.len() && (#[trigger] caps[i]).name@ == sil_name() && n
                        <= caps[i].version <= 72;
                assert(is_sil_at(caps[i], caps[i].version as nat));
            }
            assert forall|k: nat| n <= k <= 72 && has_eth_version(caps, k) implies has_eth_at_least(
                caps,
                n,
            ) by {
                let i = choose|i: int| 0 <= i < caps.len() && #[trigger] is_sil_at(caps[i], k);
                assert(caps[i].name@ == sil_name());
            }
        }
        match version {
            SilVersion::Sil66 => {
                self.eth_66 || self.eth_67 || self.eth_68 || self.eth_69 || self.eth_70
                    || self.eth_71 || self.eth_72
            },
            SilVersion::Sil67 => {
                self.eth_67 || self.eth_68 || self.eth_69 || self.eth_70 || self.eth_71
                    || self.eth_72
            },
            SilVersion::Sil68 => {
                self.eth_68 || self.eth_69 || self.eth_70 || self.eth_71 || self.eth_72
            },
            SilVersion::Sil69 => self.eth_69 || self.eth_70 || self.eth_71 || self.eth_72,
            SilVersion::Sil70 => self.eth_70 || self.eth_71 || self.eth_72,
            SilVersion::Sil71 => self.eth_71 || self.eth_72,
            SilVersion::Sil72 => self.eth_72,
        }
    }

    /// Returns all capabilities.
    pub fn capabilities(&self) -> (r: &[Capability])
        ensures
            r@ == self@,
    {
        self.inner.as_slice()
    }

    /// Consumes the type and returns all capabilities.
    pub fn into_inner(self) -> (r: Vec<Capability>)
        ensures
            r@ == self@,
    {
        self.inner
    }

    /// Whether the peer supports the `sil` sub-protocol at any known version.
    pub fn supports_eth(&self) -> (r: bool)
        ensures
            r == has_eth_at_least(self@, 66),
    {
        self.supports_eth_at_least(&SilVersion::Sil66)
    }

    /// Whether this peer supports sil v66 protocol.
    pub fn supports_eth_v66(&self) -> (r: bool)
        ensures
            r == has_eth_version(self@, 66),
    {
        proof {
            use_type_invariant(self);
        }
        self.eth_66
    }

    /// Whether this peer supports sil v67 protocol.
    pub fn supports_eth_v67(&self) -> (r: bool)
        ensures
            r == has_eth_version(self@, 67),
    {
        proof {
            use_type_invariant(self);
        }
        self.eth_67
    }

    /// Whether this peer supports sil v68 protocol.
    pub fn supports_eth_v68(&self) -> (r: bool)
        ensures
            r == has_eth_version(self@, 68),
    {
        proof {
            use_type_invariant(self);
        }
        self.eth_68
    }

    /// Whether this peer supports sil v69 protocol.
    pub fn supports_eth_v69(&self) -> (r: bool)
        ensures
            r == has_eth_version(self@, 69),
    {
        proof {
            use_type_invariant(self);
        }
        self.eth_69
    }

    /// Whether this peer supports sil v70 protocol.
    pub fn supports_eth_v70(&self) -> (r: bool)
        ensures
            r == has_eth_version(self@, 70),
    {
        proof {
            use_type_invariant(self);
        }
        self.eth_70
    }

    /// Whether this peer supports sil v71 protocol.
    pub fn supports_eth_v71(&self) -> (r: bool)
        ensures
            r == has_eth_version(self@, 71),
    {
        proof {
            use_type_invariant(self);
        }
        self.eth_71
    }
}

impl From<Vec<Capability>> for Capabilities {
    /// The capabilities of a node that advertises the given list.
    fn from(value: Vec<Capability>) -> (r: Capabilities) {
        Capabilities::new(value)
    }
}

impl vstd::std_specs::convert::FromSpecImpl<Vec<Capability>> for Capabilities {
    open spec fn obeys_from_spec() -> bool {
        true
    }

    open spec fn from_spec(value: Vec<Capability>) -> Capabilities {
        Capabilities::of_list(value)
    }
}

/// Whether two lists hold the same capabilities: the same names and versions, in order.
pub open spec fn same_capabilities(a: Seq<Capability>, b: Seq<Capability>) -> bool {
    &&& a.len() == b.len()
    &&& forall|i: int|
        0 <= i < a.len() ==> (#[trigger] a[i]).name@ == b[i].name@ && a[i].version == b[i].version
}

impl Clone for Capabilities {
    /// A copy of these capabilities.
    fn clone(&self) -> (r: Capabilities)
        ensures
            same_capabilities(r@, self@),
    {
        let mut inner: Vec<Capability> = Vec::new();
        let mut i: usize = 0;
        while i < self.inner.len()
            invariant
                i <= self.inner@.len(),
                inner@.len() == i,
                forall|j: int|
                    0 <= j < i ==> (#[trigger] inner@[j]).name@ == self.inner@[j].name@
                        && inner@[j].version == self.inner@[j].version,
            decreases self.inner@.len() - i,
        {
            let c = &self.inner[i];
            inner.push(Capability { name: c.name.clone(), version: c.version });
            i = i + 1;
        }
        Capabilities::new(inner)
    }
}

/// A peer that supports `sil` at least at a version supports it at least at every older
/// version.
pub proof fn lemma_supports_at_least_monotone(caps: Seq<Capability>, a: nat, b: nat)
    requires
        a <= b,
        has_eth_at_least(caps, b),
    ensures
        has_eth_at_least(caps, a),
{
    let i = choose|i: int|
        0 <= i < caps.len() && (#[trigger] caps[i]).name@ == sil_name() && b <= caps[i].version
            <= 72;
}

/// Advertising a known `sil` version means supporting every version up to it: a peer that
/// advertises only `sil/71` supports at least each of 66 to 71.
pub proof fn lemma_exact_implies_at_least(caps: Seq<Capability>, v: nat, w: nat)
    requires
        has_eth_version(caps, v),
        w <= v <= 72,
    ensures
        has_eth_at_least(caps, w),
{
    let i = choose|i: int| 0 <= i < caps.len() && #[trigger] is_sil_at(caps[i], v);
    assert(caps[i].name@ == sil_name());
}

} // verus!
