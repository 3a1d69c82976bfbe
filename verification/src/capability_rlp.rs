//! The RLP form of capabilities, as the `hello` message carries them: each capability is a
//! list of its name (an RLP string of UTF-8 bytes) and its version, and a node's capabilities
//! are a list of those.

use vstd::prelude::*;
use vstd::utf8::{decode_utf8, encode_utf8, encode_utf8_decode_utf8, encode_utf8_valid_utf8, valid_utf8};
use crate::capability::{Capabilities, Capability};
use crate::rlp::{
    lemma_rlp_header_len, lemma_rlp_header_roundtrip, lemma_rlp_string_len,
    lemma_rlp_string_roundtrip, lemma_rlp_u64_roundtrip, rlp_decode_header,
    rlp_decode_string, rlp_decode_usize, rlp_encode_header, rlp_encode_str, rlp_encode_uint,
    rlp_header_bytes, rlp_header_prefix, rlp_list_length_mismatch_error, rlp_string,
    rlp_string_prefix, rlp_u64_prefix, rlp_uint, rlp_unexpected_string_error,
};

verus! {

/// The payload of an encoded capability: its name as an RLP string of UTF-8 bytes, then its
/// version.
pub open spec fn capability_payload(name: Seq<char>, version: nat) -> Seq<u8> {
    rlp_string(encode_utf8(name)) + rlp_uint(version)
}

/// The RLP encoding of a capability: a list of its name and version.
pub open spec fn capability_rlp(name: Seq<char>, version: nat) -> Seq<u8> {
    rlp_header_bytes(true, capability_payload(name, version).len()) + capability_payload(
        name,
        version,
    )
}

/// The encodings of capabilities, one after the other.
pub open spec fn capability_items_rlp(caps: Seq<Capability>) -> Seq<u8>
    decreases caps.len(),
{
    if caps.len() == 0 {
        Seq::empty()
    } else {
        capability_rlp(caps[0].name@, caps[0].version as nat) + capability_items_rlp(
            caps.drop_first(),
        )
    }
}

/// The RLP encoding of a list of capabilities.
pub open spec fn capabilities_rlp(caps: Seq<Capability>) -> Seq<u8> {
    rlp_header_bytes(true, capability_items_rlp(caps).len()) + capability_items_rlp(caps)
}

/// The name and version of each capability.
pub open spec fn capability_pairs(caps: Seq<Capability>) -> Seq<(Seq<char>, usize)> {
    caps.map_values(|c: Capability| (c.name@, c.version))
}

/// What decoding one capability reads at the front of `buf`: its name, its version and how many
/// bytes it takes, or `None` where it fails. The item must be a list; a string of valid UTF-8
/// follows its header, then a number that fits a `usize`, and these two must take exactly the
/// payload that the header announces.
#[verifier::opaque]
pub open spec fn capability_prefix(buf: Seq<u8>) -> Option<(Seq<char>, usize, nat)> {
    match rlp_header_prefix(buf) {
        Some((list, len, header)) => if !list {
            None
        } else {
            let body = buf.subrange(header as int, buf.len() as int);
            match rlp_string_prefix(body) {
                Some((bytes, name_read)) => if !valid_utf8(bytes) {
                    None
                } else {
                    match rlp_u64_prefix(body.subrange(name_read as int, body.len() as int)) {
                        Some((v, version_read)) => if v <= usize::MAX && name_read + version_read
                            == len {
                            Some((decode_utf8(bytes), v as usize, header + len))
                        } else {
                            None
                        },
                        None => None,
                    }
                },
                None => None,
            }
        },
        None => None,
    }
}

/// The capabilities that a list payload holds, decoded one after the other until the payload
/// is used up, or `None` where one of them fails.
#[verifier::opaque]
pub open spec fn capability_items(payload: Seq<u8>) -> Option<Seq<(Seq<char>, usize)>>
    decreases payload.len(),
{
    if payload.len() == 0 {
        Some(Seq::empty())
    } else {
        match capability_prefix(payload) {
            Some((name, version, read)) => if 0 < read <= payload.len() {
                match capability_items(payload.subrange(read as int, payload.len() as int)) {
                    Some(rest) => Some(seq![(name, version)] + rest),
                    None => None,
                }
            } else {
                None
            },
            None => None,
        }
    }
}

/// What decoding a list of capabilities reads at the front of `buf`: the capabilities and how
/// many bytes the list takes, or `None` where it fails.
pub open spec fn capabilities_decoding(buf: Seq<u8>) -> Option<(Seq<(Seq<char>, usize)>, nat)> {
    match rlp_header_prefix(buf) {
        Some((list, len, header)) => if !list {
            None
        } else {
            match capability_items(buf.subrange(header as int, (header + len) as int)) {
                Some(items) => Some((items, header + len)),
                None => None,
            }
        },
        None => None,
    }
}

/// `items` in front of what `rest` decodes to, if it decodes.
pub open spec fn items_then(
    items: Seq<(Seq<char>, usize)>,
    rest: Option<Seq<(Seq<char>, usize)>>,
) -> Option<Seq<(Seq<char>, usize)>> {
    match rest {
        Some(r) => Some(items + r),
        None => None,
    }
}

/// A capability that decodes takes at least one byte and no more than the buffer holds.
proof fn lemma_capability_prefix_reads(buf: Seq<u8>)
    requires
        capability_prefix(buf) is Some,
    ensures
        capability_prefix(buf) matches Some((_, _, read)) && 0 < read <= buf.len(),
{
    reveal(capability_prefix);
}

/// Decoding a list payload that starts with a capability: that capability, then what the rest
/// decodes to.
proof fn lemma_items_step(payload: Seq<u8>)
    requires
        payload.len() > 0,
    ensures
        capability_items(payload) == (match capability_prefix(payload) {
            Some((name, version, read)) => items_then(
                seq![(name, version)],
                capability_items(payload.subrange(read as int, payload.len() as int)),
            ),
            None => None,
        }),
{
    reveal(capability_items);
    if capability_prefix(payload) is Some {
        lemma_capability_prefix_reads(payload);
    }
}

/// Putting no items in front changes nothing.
proof fn lemma_items_then_empty(rest: Option<Seq<(Seq<char>, usize)>>)
    ensures
        items_then(Seq::empty(), rest) == rest,
{
    match rest {
        Some(r) => {
            assert(Seq::<(Seq<char>, usize)>::empty() + r =~= r);
        },
        None => {},
    }
}

/// Putting items in front in two steps is putting them in front at once.
proof fn lemma_items_then_assoc(
    a: Seq<(Seq<char>, usize)>,
    b: Seq<(Seq<char>, usize)>,
    rest: Option<Seq<(Seq<char>, usize)>>,
)
    ensures
        items_then(a, items_then(b, rest)) == items_then(a + b, rest),
{
    match rest {
        Some(r) => {
            assert(a + (b + r) =~= (a + b) + r);
        },
        None => {},
    }
}

/// The encoding of a capability is longer than its name's bytes and than its payload.
proof fn lemma_capability_rlp_len(name: Seq<char>, version: u64)
    requires
        capability_rlp(name, version as nat).len() <= usize::MAX,
    ensures
        encode_utf8(name).len() + rlp_uint(version as nat).len() <= capability_payload(
            name,
            version as nat,
        ).len(),
        capability_payload(name, version as nat).len() < capability_rlp(name, version as nat).len(),
{
    lemma_rlp_string_len(encode_utf8(name));
    lemma_rlp_header_len(true, capability_payload(name, version as nat).len());
}

/// The encodings that follow the first `i` capabilities.
proof fn lemma_items_rlp_skip(caps: Seq<Capability>, i: int)
    requires
        0 <= i < caps.len(),
    ensures
        capability_items_rlp(caps.skip(i)) == capability_rlp(caps[i].name@, caps[i].version as nat)
            + capability_items_rlp(caps.skip(i + 1)),
{
    assert(caps.skip(i).drop_first() =~= caps.skip(i + 1));
}

impl Capability {
    /// RLP-encodes this capability as a list of its name and version.
    pub fn encode(&self) -> (r: Vec<u8>)
        requires
            capability_rlp(self.name@, self.version as nat).len() <= usize::MAX,
        ensures
            r@ == capability_rlp(self.name@, self.version as nat),
    {
        let mut name = rlp_encode_str(self.name.as_str());
        let mut version = rlp_encode_uint(self.version as u64);
        proof {
            lemma_capability_rlp_len(self.name@, self.version as u64);
        }
        let payload_length = name.len() + version.len();
        let mut out = rlp_encode_header(true, payload_length);
        out.append(&mut name);
        out.append(&mut version);
        out
    }

    /// Decodes a capability from the front of `buf`: its name and version, and the number of
    /// bytes read.
    pub fn decode(buf: &[u8]) -> (r: Result<(Capability, usize), alloy_rlp::Error>)
        ensures
            match capability_prefix(buf@) {
                Some((name, version, read)) => r matches Ok((c, n)) && c.name@ == name && c.version
                    == version && n == read,
                None => r is Err,
            },
    {
        proof {
            reveal(capability_prefix);
        }
        let (list, payload_length, after_header) = rlp_decode_header(buf)?;
        if !list {
            return Err(rlp_unexpected_string_error());
        }
        let body = &buf[buf.len() - after_header..buf.len()];
        let (name, after_name) = rlp_decode_string(body)?;
        let rest = &body[body.len() - after_name..body.len()];
        assert(rest@ =~= body@.subrange(
            (body@.len() - after_name) as int,
            body@.len() as int,
        ));
        let (version, after_version) = rlp_decode_usize(rest)?;
        let consumed = body.len() - after_version;
        if consumed != payload_length {
            return Err(rlp_list_length_mismatch_error(payload_length, consumed));
        }
        proof {
            encode_utf8_decode_utf8(name@);
        }
        Ok((Capability { name, version }, buf.len() - after_version))
    }
}

impl Capabilities {
    /// Appends the RLP encoding of these capabilities, a list of the encoded capabilities, to
    /// `out`.
    pub fn encode(&self, out: &mut Vec<u8>)
        requires
            capabilities_rlp(self@).len() <= usize::MAX,
        ensures
            final(out)@ == old(out)@ + capabilities_rlp(self@),
    {
        let caps = self.capabilities();
        let ghost all = caps@;
        let mut payload: Vec<u8> = Vec::new();
        let mut i: usize = 0;
        assert(all.skip(0) =~= all);
        while i < caps.len()
            invariant
                caps@ == all,
                all == self@,
                i <= all.len(),
                payload@ + capability_items_rlp(all.skip(i as int)) == capability_items_rlp(all),
                capability_items_rlp(all).len() <= usize::MAX,
            decreases all.len() - i,
        {
            proof {
                lemma_items_rlp_skip(all, i as int);
            }
            let mut item = caps[i].encode();
            payload.append(&mut item);
            i = i + 1;
        }
        assert(all.skip(i as int) =~= Seq::<Capability>::empty());
        assert(payload@ =~= capability_items_rlp(all));
        let mut header = rlp_encode_header(true, payload.len());
        out.append(&mut header);
        out.append(&mut payload);
        assert(out@ =~= old(out)@ + capabilities_rlp(self@));
    }

    /// Decodes the capabilities of a node from the front of `buf`, and the number of bytes
    /// read.
    pub fn decode(buf: &[u8]) -> (r: Result<(Capabilities, usize), alloy_rlp::Error>)
        ensures
            match capabilities_decoding(buf@) {
                Some((items, read)) => r matches Ok((caps, n)) && capability_pairs(caps@) == items
                    && n == read,
                None => r is Err,
            },
    {
        let (list, payload_length, after_header) = rlp_decode_header(buf)?;
        if !list {
            return Err(rlp_unexpected_string_error());
        }
        let start = buf.len() - after_header;
        let payload = &buf[start..start + payload_length];
        let ghost whole = payload@;
        assert(whole == buf@.subrange(start as int, (start + payload_length) as int));
        let mut inner: Vec<Capability> = Vec::new();
        let mut pos: usize = 0;
        assert(whole.subrange(0, whole.len() as int) =~= whole);
        assert(capability_pairs(inner@) =~= Seq::<(Seq<char>, usize)>::empty());
        proof {
            lemma_items_then_empty(capability_items(whole));
        }
        while pos < payload.len()
            invariant
                payload@ == whole,
                pos <= whole.len(),
                rlp_header_prefix(buf@) == Some((true, payload_length as nat, start as nat)),
                whole == buf@.subrange(start as int, (start + payload_length) as int),
                capability_items(whole) == items_then(
                    capability_pairs(inner@),
                    capability_items(whole.subrange(pos as int, whole.len() as int)),
                ),
            decreases whole.len() - pos,
        {
            let rest = &payload[pos..payload.len()];
            let ghost tail = whole.subrange(pos as int, whole.len() as int);
            assert(rest@ =~= tail);
            proof {
                lemma_items_step(tail);
            }
            let decoded = Capability::decode(rest);
            match decoded {
                Err(e) => {
                    return Err(e);
                },
                Ok((c, read)) => {
                    let ghost pairs = capability_pairs(inner@);
                    proof {
                        lemma_capability_prefix_reads(tail);
                        assert(tail.subrange(read as int, tail.len() as int) =~= whole.subrange(
                            pos + read,
                            whole.len() as int,
                        ));
                        lemma_items_then_assoc(
                            pairs,
                            seq![(c.name@, c.version)],
                            capability_items(tail.subrange(read as int, tail.len() as int)),
                        );
                    }
                    inner.push(c);
                    pos = pos + read;
                    proof {
                        assert(capability_pairs(inner@) =~= pairs + seq![(c.name@, c.version)]);
                    }
                },
            }
        }
        assert(whole.subrange(pos as int, whole.len() as int) =~= Seq::<u8>::empty());
        proof {
            reveal(capability_items);
            assert(capability_pairs(inner@) + Seq::<(Seq<char>, usize)>::empty()
                =~= capability_pairs(inner@));
        }
        let caps = Capabilities::new(inner);
        Ok((caps, start + payload_length))
    }
}

/// Reading back an encoded capability gives its name and version and reads exactly its
/// encoding, whatever follows it.
pub proof fn lemma_capability_roundtrip(name: Seq<char>, version: usize, rest: Seq<u8>)
    requires
        capability_rlp(name, version as nat).len() <= usize::MAX,
    ensures
        capability_prefix(capability_rlp(name, version as nat) + rest) == Some(
            (name, version, capability_rlp(name, version as nat).len()),
        ),
{
    let bytes = encode_utf8(name);
    let s = rlp_string(bytes);
    let v = rlp_uint(version as nat);
    let p = capability_payload(name, version as nat);
    let h = rlp_header_bytes(true, p.len());
    let buf = capability_rlp(name, version as nat) + rest;
    lemma_capability_rlp_len(name, version as u64);
    lemma_rlp_header_roundtrip(true, p.len(), p + rest);
    assert(h + (p + rest) =~= buf);
    let body = buf.subrange(h.len() as int, buf.len() as int);
    assert(body =~= s + (v + rest));
    lemma_rlp_string_roundtrip(bytes, v + rest);
    assert(body.subrange(s.len() as int, body.len() as int) =~= v + rest);
    lemma_rlp_u64_roundtrip(version as u64, rest);
    encode_utf8_valid_utf8(name);
    encode_utf8_decode_utf8(name);
    reveal(capability_prefix);
}

/// Reading back the encodings of capabilities, one after the other, gives their names and
/// versions.
proof fn lemma_items_roundtrip(caps: Seq<Capability>)
    requires
        capability_items_rlp(caps).len() <= usize::MAX,
    ensures
        capability_items(capability_items_rlp(caps)) == Some(capability_pairs(caps)),
    decreases caps.len(),
{
    reveal(capability_items);
    if caps.len() == 0 {
        assert(capability_pairs(caps) =~= Seq::<(Seq<char>, usize)>::empty());
    } else {
        let c = caps[0];
        let first = capability_rlp(c.name@, c.version as nat);
        let later = capability_items_rlp(caps.drop_first());
        lemma_capability_roundtrip(c.name@, c.version, later);
        lemma_capability_rlp_len(c.name@, c.version as u64);
        assert((first + later).subrange(first.len() as int, (first + later).len() as int)
            =~= later);
        lemma_items_roundtrip(caps.drop_first());
        assert(capability_pairs(caps) =~= seq![(c.name@, c.version)] + capability_pairs(
            caps.drop_first(),
        ));
    }
}

/// Decoding the encoding of a node's capabilities gives back their names and versions, in
/// order, and reads exactly the encoding, whatever follows it.
pub proof fn lemma_capabilities_roundtrip(caps: Seq<Capability>, rest: Seq<u8>)
    requires
        capabilities_rlp(caps).len() <= usize::MAX,
    ensures
        capabilities_decoding(capabilities_rlp(caps) + rest) == Some(
            (capability_pairs(caps), capabilities_rlp(caps).len()),
        ),
{
    let items = capability_items_rlp(caps);
    let h = rlp_header_bytes(true, items.len());
    lemma_rlp_header_len(true, items.len());
    lemma_rlp_header_roundtrip(true, items.len(), items + rest);
    assert(h + (items + rest) =~= capabilities_rlp(caps) + rest);
    assert((capabilities_rlp(caps) + rest).subrange(h.len() as int, (h.len() + items.len()) as int)
        =~= items);
    lemma_items_roundtrip(caps);
}

} // verus!
