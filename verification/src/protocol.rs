//! A protocol: a capability together with the number of message ids it reserves.

use vstd::prelude::*;
use crate::capability::{is_sil_at, sil_name, snap_name, Capability};
use crate::message::{eth_message_count, SilMessageID};
use crate::version::{snap_message_count, snap_version_number, version_number, SilVersion, SnapVersion};

verus! {

/// A [`Capability`] and the number of messages it uses.
///
/// Only the capability is shared with the remote peer; both sides know the number of messages,
/// which is used to lay out message ids when several protocols share a connection.
#[derive(Clone, Debug, PartialEq, Eq, Hash)]
pub struct Protocol {
    /// The capability of the sub-protocol.
    pub cap: Capability,
    /// The number of message ids the protocol reserves.
    messages: u8,
}

impl Protocol {
    /// The capability of the protocol: the value of its public `cap` field. (Outside this module
    /// Verus cannot name that field in a specification, since the private `messages` field makes
    /// the type opaque there, so every contract speaks of the field through this function.)
    pub closed spec fn capability(&self) -> Capability {
        self.cap
    }

    /// The number of message ids the protocol reserves.
    pub closed spec fn message_ids(&self) -> u8 {
        self.messages
    }

    /// The protocol with the given capability and number of messages.
    pub closed spec fn of_parts(cap: Capability, messages: u8) -> Protocol {
        Protocol { cap, messages }
    }

    /// Creates a protocol with the given capability and number of messages.
    pub fn new(cap: Capability, messages: u8) -> (r: Protocol)
        ensures
            r == Protocol::of_parts(cap, messages),
            r.capability() == cap,
            r.message_ids() == messages,
    {
        Protocol { cap, messages }
    }

    /// The `sil` protocol of the given version.
    pub fn sil(version: SilVersion) -> (r: Protocol)
        ensures
            is_sil_at(r.capability(), version_number(version) as nat),
            r.message_ids() == eth_message_count(version),
    {
        let cap = Capability::sil(version);
        let messages = SilMessageID::message_count(version);
        Protocol::new(cap, messages)
    }

    /// The `snap` protocol of the given version.
    pub fn snap(version: SnapVersion) -> (r: Protocol)
        ensures
            r.capability().name@ == snap_name(),
            r.capability().version == snap_version_number(version),
            r.message_ids() == snap_message_count(version),
    {
        let cap = Capability::snap(version);
        let messages = version.message_count();
        Protocol::new(cap, messages)
    }

    /// The `sil/66` protocol.
    pub fn eth_66() -> (r: Protocol)
        ensures
            is_sil_at(r.capability(), 66),
            r.message_ids() == 17,
    {
        Protocol::sil(SilVersion::Sil66)
    }

    /// The `sil/67` protocol.
    pub fn eth_67() -> (r: Protocol)
        ensures
            is_sil_at(r.capability(), 67),
            r.message_ids() == 17,
    {
        Protocol::sil(SilVersion::Sil67)
    }

    /// The `sil/68` protocol.
    pub fn eth_68() -> (r: Protocol)
        ensures
            is_sil_at(r.capability(), 68),
            r.message_ids() == 17,
    {
        Protocol::sil(SilVersion::Sil68)
    }

    /// The `snap/2` protocol.
    pub fn snap_2() -> (r: Protocol)
        ensures
            r.capability().name@ == snap_name(),
            r.capability().version == 2,
            r.message_ids() == 10,
    {
        Protocol::snap(SnapVersion::V2)
    }

    /// Consumes the protocol and returns its capability and number of messages.
    pub fn split(self) -> (r: (Capability, u8))
        ensures
            r.0 == self.capability(),
            r.1 == self.message_ids(),
    {
        (self.cap, self.messages)
    }

    /// The name of the protocol's capability.
    pub fn capability_name(&self) -> (r: &String)
        ensures
            *r == self.capability().name,
    {
        &self.cap.name
    }

    /// The number of values needed to represent all message ids of the capability.
    pub fn messages(&self) -> (r: u8)
        ensures
            r == self.message_ids(),
    {
        self.messages
    }
}

impl From<SilVersion> for Protocol {
    /// The `sil` protocol of the given version.
    fn from(version: SilVersion) -> (r: Protocol)
        ensures
            is_sil_at(r.capability(), version_number(version) as nat),
            r.message_ids() == eth_message_count(version),
    {
        Protocol::sil(version)
    }
}

/// The `sil` protocol of a version is fixed in `from`'s own contract by its name's text, its
/// version and its message ids: a spec value of it would need its name as a `String` value,
/// which no spec can build, so `from` is not claimed to return `from_spec`.
impl vstd::std_specs::convert::FromSpecImpl<SilVersion> for Protocol {
    open spec fn obeys_from_spec() -> bool {
        false
    }

    open spec fn from_spec(version: SilVersion) -> Protocol {
        choose|p: Protocol|
            is_sil_at(p.capability(), version_number(version) as nat) && p.message_ids()
                == eth_message_count(version)
    }
}

/// A protocol is determined by its capability and the number of message ids it reserves.
pub proof fn lemma_protocol_determined(p: Protocol, q: Protocol)
    requires
        p.capability() == q.capability(),
        p.message_ids() == q.message_ids(),
    ensures
        p == q,
{
}

/// A protocol built from a capability and a number of message ids holds exactly those, and
/// two protocols built from parts are equal exactly when their parts are.
pub proof fn lemma_protocol_of_parts(c1: Capability, m1: u8, c2: Capability, m2: u8)
    ensures
        Protocol::of_parts(c1, m1).capability() == c1,
        Protocol::of_parts(c1, m1).message_ids() == m1,
        Protocol::of_parts(c1, m1) == Protocol::of_parts(c2, m2) <==> c1 == c2 && m1 == m2,
{
}

} // verus!
