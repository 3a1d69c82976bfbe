//! A dedicated `sil` + `snap/2` stream: one connection, two protocols told apart by message id.

use vstd::prelude::*;
use vstd::multiset::Multiset;
use vstd::string::StrSliceExecFns;
use crate::capability::{is_sil_text, is_snap_text, sil_name, snap_name, Capability};
use crate::errors::SilStreamError;
use crate::ethstream::SilStreamInner;
use crate::protocol::Protocol;
use crate::version::SilVersion;

verus! {

/// A capability shared with a peer, with where its message ids start (relative to the first
/// shared capability) and how many it reserves.
#[derive(Clone, Debug, PartialEq, Eq)]
pub struct SharedCapability {
    /// The shared capability.
    pub cap: Capability,
    /// The first message id of the capability, relative to the first shared capability.
    pub offset: u8,
    /// The number of message ids the capability reserves.
    pub messages: u8,
}

/// Whether a capability is `snap/2`.
pub open spec fn is_snap_v2(c: Capability) -> bool {
    c.name@ == snap_name() && c.version == 2
}

/// The layout that a `sil` + `snap/2` stream accepts: exactly `sil` at offset 0, immediately
/// followed by `snap/2`; the result is the offset of `snap/2`.
pub open spec fn eth_snap_offset(caps: Seq<SharedCapability>) -> Option<u8> {
    if caps.len() == 2 && caps[0].cap.name@ == sil_name() && caps[0].offset == 0 && is_snap_v2(
        caps[1].cap,
    ) && caps[1].offset == caps[0].messages {
        Some(caps[1].offset)
    } else {
        None
    }
}

/// The number of message ids that the protocols reserve together.
pub open spec fn total_message_ids(protocols: Seq<Protocol>) -> int
    decreases protocols.len(),
{
    if protocols.len() == 0 {
        0
    } else {
        total_message_ids(protocols.drop_last()) + protocols.last().message_ids()
    }
}

/// The ids of the first protocols are no more than those of all of them.
proof fn lemma_total_message_ids_prefix(protocols: Seq<Protocol>, i: int)
    requires
        0 <= i <= protocols.len(),
    ensures
        total_message_ids(protocols.take(i)) <= total_message_ids(protocols),
    decreases protocols.len() - i,
{
    if i < protocols.len() {
        lemma_total_message_ids_prefix(protocols, i + 1);
        assert(protocols.take(i + 1).drop_last() =~= protocols.take(i));
    } else {
        assert(protocols.take(i) =~= protocols);
    }
}

/// Lays out protocols, in the given order, one after the other in the message-id space; `None`
/// exactly when the ids they reserve together do not fit in a byte. Peers agree on name order:
/// `shared_in_name_order` sorts first and then lays out with this, and a caller whose protocols
/// are already in name order can call it directly.
pub fn shared_in_order(protocols: Vec<Protocol>) -> (r: Option<Vec<SharedCapability>>)
    ensures
        match r {
            Some(caps) => {
                &&& caps@.len() == protocols@.len()
                &&& forall|i: int|
                    0 <= i < caps@.len() ==> (#[trigger] caps@[i]).cap == protocols@[i].capability()
                        && caps@[i].messages == protocols@[i].message_ids()
                &&& caps@.len() > 0 ==> caps@[0].offset == 0
                &&& forall|i: int|
                    0 < i < caps@.len() ==> (#[trigger] caps@[i]).offset == caps@[i - 1].offset
                        + caps@[i - 1].messages
            },
            None => true,
        },
        r is None <==> total_message_ids(protocols@) > 255,
{
    let mut out: Vec<SharedCapability> = Vec::new();
    let mut next: u8 = 0;
    let mut rest = protocols;
    let ghost all = rest@;
    let mut i: usize = 0;
    let n = rest.len();
    while i < n
        invariant
            n == all.len(),
            i <= n,
            rest@ == all.subrange(i as int, n as int),
            out@.len() == i,
            forall|j: int|
                0 <= j < i ==> (#[trigger] out@[j]).cap == all[j].capability() && out@[j].messages
                    == all[j].message_ids(),
            i > 0 ==> out@[0].offset == 0,
            forall|j: int|
                0 < j < i ==> (#[trigger] out@[j]).offset == out@[j - 1].offset + out@[j - 1].messages,
            i > 0 ==> next == out@[i - 1].offset + out@[i - 1].messages,
            i == 0 ==> next == 0,
            next == total_message_ids(all.take(i as int)),
            all == protocols@,
        decreases n - i,
    {
        let p = rest.remove(0);
        assert(p == all[i as int]);
        proof {
            assert(all.take(i + 1).drop_last() =~= all.take(i as int));
            assert(all.take(i + 1).last() == p);
        }
        let (cap, messages) = p.split();
        let offset = next;
        if messages as u16 + next as u16 > 255 {
            proof {
                lemma_total_message_ids_prefix(all, i + 1);
            }
            return None;
        }
        next = next + messages;
        out.push(SharedCapability { cap, offset, messages });
        i = i + 1;
        assert(rest@ =~= all.subrange(i as int, n as int));
    }
    assert(all.take(n as int) =~= all);
    Some(out)
}

/// Whether the name `a` comes no later than `b` in the order of their characters (a name comes
/// before every longer name that starts with it).
pub open spec fn name_le(a: Seq<char>, b: Seq<char>) -> bool
    decreases a.len(),
{
    if a.len() == 0 {
        true
    } else if b.len() == 0 {
        false
    } else if (a[0] as u32) < (b[0] as u32) {
        true
    } else if (a[0] as u32) > (b[0] as u32) {
        false
    } else {
        name_le(a.drop_first(), b.drop_first())
    }
}

/// Of two names, one comes no later than the other.
proof fn lemma_name_le_total(a: Seq<char>, b: Seq<char>)
    ensures
        name_le(a, b) || name_le(b, a),
    decreases a.len(),
{
    if a.len() > 0 && b.len() > 0 && (a[0] as u32) == (b[0] as u32) {
        lemma_name_le_total(a.drop_first(), b.drop_first());
    }
}

/// The order of names is transitive.
proof fn lemma_name_le_transitive(a: Seq<char>, b: Seq<char>, c: Seq<char>)
    requires
        name_le(a, b),
        name_le(b, c),
    ensures
        name_le(a, c),
    decreases a.len(),
{
    if a.len() > 0 && b.len() > 0 && c.len() > 0 && (a[0] as u32) == (b[0] as u32) && (b[0] as u32)
        == (c[0] as u32) {
        lemma_name_le_transitive(a.drop_first(), b.drop_first(), c.drop_first());
    }
}

/// Whether `a` and `b` hold the same characters at each place before `i`.
pub open spec fn agree_before(a: Seq<char>, b: Seq<char>, i: int) -> bool {
    forall|k: int| 0 <= k < i ==> (#[trigger] a[k] as u32) == (b[k] as u32)
}

/// Whether `a` is `b` or a beginning of it.
pub open spec fn is_name_prefix(a: Seq<char>, b: Seq<char>) -> bool {
    a.len() <= b.len() && agree_before(a, b, a.len() as int)
}

/// Whether `a` and `b` agree before place `i` and there `a` holds the smaller character.
pub open spec fn first_difference_smaller(a: Seq<char>, b: Seq<char>, i: int) -> bool {
    0 <= i < a.len() && i < b.len() && agree_before(a, b, i) && (a[i] as u32) < (b[i] as u32)
}

/// Name order is the lexicographic order of characters: a name comes no later than another
/// exactly when it is a beginning of the other, or when at the first place where the two
/// differ its character is the smaller one, whatever their lengths.
pub proof fn lemma_name_le_lexicographic(a: Seq<char>, b: Seq<char>)
    ensures
        name_le(a, b) <==> is_name_prefix(a, b) || exists|i: int|
            #[trigger] first_difference_smaller(a, b, i),
    decreases a.len(),
{
    if a.len() == 0 {
    } else if b.len() == 0 {
        assert forall|i: int| !#[trigger] first_difference_smaller(a, b, i) by {}
    } else if (a[0] as u32) < (b[0] as u32) {
        assert(first_difference_smaller(a, b, 0));
    } else if (a[0] as u32) > (b[0] as u32) {
        assert forall|i: int| !#[trigger] first_difference_smaller(a, b, i) by {
            if first_difference_smaller(a, b, i) && i > 0 {
                assert((a[0] as u32) == (b[0] as u32));
            }
        }
    } else {
        let a1 = a.drop_first();
        let b1 = b.drop_first();
        lemma_name_le_lexicographic(a1, b1);
        if is_name_prefix(a, b) {
            assert forall|k: int| 0 <= k < a1.len() implies (#[trigger] a1[k] as u32) == (b1[k]
                as u32) by {
                assert((a[k + 1] as u32) == (b[k + 1] as u32));
            }
        }
        if is_name_prefix(a1, b1) {
            assert forall|k: int| 0 <= k < a.len() implies (#[trigger] a[k] as u32) == (b[k]
                as u32) by {
                if k > 0 {
                    assert((a1[k - 1] as u32) == (b1[k - 1] as u32));
                }
            }
        }
        if exists|i: int| #[trigger] first_difference_smaller(a, b, i) {
            let i = choose|i: int| #[trigger] first_difference_smaller(a, b, i);
            assert(i != 0);
            assert forall|k: int| 0 <= k < i - 1 implies (#[trigger] a1[k] as u32) == (b1[k]
                as u32) by {
                assert((a[k + 1] as u32) == (b[k + 1] as u32));
            }
            assert(first_difference_smaller(a1, b1, i - 1));
        }
        if exists|i: int| #[trigger] first_difference_smaller(a1, b1, i) {
            let i = choose|i: int| #[trigger] first_difference_smaller(a1, b1, i);
            assert forall|k: int| 0 <= k < i + 1 implies (#[trigger] a[k] as u32) == (b[k]
                as u32) by {
                if k > 0 {
                    assert((a1[k - 1] as u32) == (b1[k - 1] as u32));
                }
            }
            assert(first_difference_smaller(a, b, i + 1));
        }
    }
}

/// Of two non-empty names whose first characters differ, the one with the smaller first
/// character comes first and the other does not, whatever their lengths.
pub proof fn lemma_name_le_first_character(a: Seq<char>, b: Seq<char>)
    requires
        a.len() > 0,
        b.len() > 0,
        (a[0] as u32) < (b[0] as u32),
    ensures
        name_le(a, b),
        !name_le(b, a),
{
    lemma_name_le_lexicographic(a, b);
    lemma_name_le_lexicographic(b, a);
    assert(first_difference_smaller(a, b, 0));
    assert(!is_name_prefix(b, a)) by {
        if is_name_prefix(b, a) {
            assert((b[0] as u32) == (a[0] as u32));
        }
    }
    assert forall|i: int| !#[trigger] first_difference_smaller(b, a, i) by {
        if first_difference_smaller(b, a, i) && i > 0 {
            assert((b[0] as u32) == (a[0] as u32));
        }
    }
}

/// Whether the name `a` comes no later than `b`.
fn name_le_exec(a: &String, b: &String) -> (r: bool)
    ensures
        r == name_le(a@, b@),
{
    let sa = a.as_str();
    let sb = b.as_str();
    let na = sa.unicode_len();
    let nb = sb.unicode_len();
    let mut i: usize = 0;
    assert(a@.skip(0) =~= a@);
    assert(b@.skip(0) =~= b@);
    while i < na && i < nb && sa.get_char(i) == sb.get_char(i)
        invariant
            na == a@.len(),
            nb == b@.len(),
            sa@ == a@,
            sb@ == b@,
            i <= na,
            i <= nb,
            name_le(a@, b@) == name_le(a@.skip(i as int), b@.skip(i as int)),
        decreases na - i,
    {
        proof {
            assert(a@.skip(i as int).drop_first() =~= a@.skip(i + 1));
            assert(b@.skip(i as int).drop_first() =~= b@.skip(i + 1));
        }
        i = i + 1;
    }
    if i == na {
        true
    } else if i == nb {
        false
    } else {
        let x = sa.get_char(i);
        let y = sb.get_char(i);
        assert(a@.skip(i as int)[0] == x);
        assert(b@.skip(i as int)[0] == y);
        (x as u32) < (y as u32)
    }
}

/// `s` with `x` inserted after every protocol whose name comes no later than `x`'s.
pub open spec fn insert_by_name(s: Seq<Protocol>, x: Protocol) -> Seq<Protocol>
    decreases s.len(),
{
    if s.len() == 0 || name_le(s.last().capability().name@, x.capability().name@) {
        s.push(x)
    } else {
        insert_by_name(s.drop_last(), x).push(s.last())
    }
}

/// The protocols ordered by name, those with equal names in the order they are given.
pub open spec fn sort_by_name(s: Seq<Protocol>) -> Seq<Protocol>
    decreases s.len(),
{
    if s.len() == 0 {
        s
    } else {
        insert_by_name(sort_by_name(s.drop_last()), s.last())
    }
}

/// Whether protocols are ordered by name.
pub open spec fn sorted_by_name(s: Seq<Protocol>) -> bool {
    forall|i: int, j: int|
        0 <= i < j < s.len() ==> name_le(s[i].capability().name@, s[j].capability().name@)
}

/// Inserting at a place where every later protocol comes after `x` and the one before does not
/// is inserting by name.
proof fn lemma_insert_at(s: Seq<Protocol>, x: Protocol, j: int)
    requires
        0 <= j <= s.len(),
        forall|k: int|
            j <= k < s.len() ==> !name_le(s[k].capability().name@, x.capability().name@),
        j > 0 ==> name_le(s[j - 1].capability().name@, x.capability().name@),
    ensures
        insert_by_name(s, x) == s.take(j).push(x) + s.skip(j),
    decreases s.len(),
{
    if s.len() == j {
        assert(s.take(j) =~= s);
        assert(s.skip(j) =~= Seq::<Protocol>::empty());
        assert(s.push(x) + Seq::<Protocol>::empty() =~= s.push(x));
    } else {
        lemma_insert_at(s.drop_last(), x, j);
        assert(s.drop_last().take(j) =~= s.take(j));
        assert(s.drop_last().skip(j).push(s.last()) =~= s.skip(j));
        assert((s.take(j).push(x) + s.drop_last().skip(j)).push(s.last()) =~= s.take(j).push(x)
            + s.skip(j));
    }
}

/// Inserting by name keeps a sorted list sorted and adds exactly `x`.
proof fn lemma_insert_by_name(s: Seq<Protocol>, x: Protocol)
    requires
        sorted_by_name(s),
    ensures
        sorted_by_name(insert_by_name(s, x)),
        insert_by_name(s, x).to_multiset() == s.to_multiset().insert(x),
        total_message_ids(insert_by_name(s, x)) == total_message_ids(s) + x.message_ids(),
    decreases s.len(),
{
    s.to_multiset_ensures();
    if s.len() == 0 || name_le(s.last().capability().name@, x.capability().name@) {
        let r = s.push(x);
        assert(r.drop_last() =~= s);
        assert forall|i: int, j: int| 0 <= i < j < r.len() implies name_le(
            r[i].capability().name@,
            r[j].capability().name@,
        ) by {
            if j == s.len() && i < s.len() - 1 {
                lemma_name_le_transitive(
                    s[i].capability().name@,
                    s.last().capability().name@,
                    x.capability().name@,
                );
            }
        }
    } else {
        let init = s.drop_last();
        let last = s.last();
        assert(sorted_by_name(init));
        lemma_insert_by_name(init, x);
        let t = insert_by_name(init, x);
        let r = t.push(last);
        init.to_multiset_ensures();
        t.to_multiset_ensures();
        assert(init.push(last) =~= s);
        assert(r.drop_last() =~= t);
        lemma_name_le_total(last.capability().name@, x.capability().name@);
        assert forall|i: int| 0 <= i < t.len() implies name_le(
            #[trigger] t[i].capability().name@,
            last.capability().name@,
        ) by {
            assert(t.to_multiset().count(t[i]) > 0);
            if t[i] != x {
                assert(init.to_multiset().count(t[i]) > 0);
                assert(init.contains(t[i]));
                let k = choose|k: int| 0 <= k < init.len() && init[k] == t[i];
                assert(s[k] == t[i]);
            }
        }
        assert forall|i: int, j: int| 0 <= i < j < r.len() implies name_le(
            r[i].capability().name@,
            r[j].capability().name@,
        ) by {
            if j == t.len() {
                assert(r[i] == t[i]);
            } else {
                assert(r[i] == t[i] && r[j] == t[j]);
            }
        }
        assert(r.to_multiset() =~= s.to_multiset().insert(x));
    }
}

/// Ordering by name gives a sorted list of the same protocols, with the same message ids in all.
pub proof fn lemma_sort_by_name(s: Seq<Protocol>)
    ensures
        sorted_by_name(sort_by_name(s)),
        sort_by_name(s).to_multiset() == s.to_multiset(),
        total_message_ids(sort_by_name(s)) == total_message_ids(s),
    decreases s.len(),
{
    s.to_multiset_ensures();
    if s.len() > 0 {
        lemma_sort_by_name(s.drop_last());
        lemma_insert_by_name(sort_by_name(s.drop_last()), s.last());
        s.drop_last().to_multiset_ensures();
        assert(s.drop_last().push(s.last()) =~= s);
    } else {
        assert(s.to_multiset() =~= Multiset::empty());
    }
}

/// Ordered by name, a protocol whose name is lexicographically smaller comes before one whose
/// name is larger: no protocol is followed by one whose name starts with a smaller character,
/// and none is followed by one whose name is a proper beginning of its own.
pub proof fn lemma_sort_by_name_lexicographic(s: Seq<Protocol>)
    ensures
        forall|i: int, j: int|
            0 <= i < j < sort_by_name(s).len() ==> {
                let x = (#[trigger] sort_by_name(s)[i]).capability().name@;
                let y = (#[trigger] sort_by_name(s)[j]).capability().name@;
                &&& !(exists|k: int| #[trigger] first_difference_smaller(y, x, k))
                &&& !(is_name_prefix(y, x) && y.len() < x.len())
            },
{
    lemma_sort_by_name(s);
    let t = sort_by_name(s);
    assert forall|i: int, j: int| 0 <= i < j < t.len() implies {
        let x = (#[trigger] t[i]).capability().name@;
        let y = (#[trigger] t[j]).capability().name@;
        &&& !(exists|k: int| #[trigger] first_difference_smaller(y, x, k))
        &&& !(is_name_prefix(y, x) && y.len() < x.len())
    } by {
        let x = t[i].capability().name@;
        let y = t[j].capability().name@;
        assert(name_le(x, y));
        lemma_name_le_lexicographic(x, y);
        if exists|k: int| #[trigger] first_difference_smaller(y, x, k) {
            let k = choose|k: int| #[trigger] first_difference_smaller(y, x, k);
            if is_name_prefix(x, y) {
                assert((x[k] as u32) == (y[k] as u32));
            } else {
                let m = choose|m: int| #[trigger] first_difference_smaller(x, y, m);
                if m < k {
                    assert((y[m] as u32) == (x[m] as u32));
                } else if k < m {
                    assert((x[k] as u32) == (y[k] as u32));
                }
            }
        }
        if is_name_prefix(y, x) && y.len() < x.len() {
            if is_name_prefix(x, y) {
            } else {
                let m = choose|m: int| #[trigger] first_difference_smaller(x, y, m);
                assert((y[m] as u32) == (x[m] as u32));
            }
        }
    }
}

/// The protocols ordered by name, those with equal names in the order they are given.
fn sort_protocols_by_name(protocols: Vec<Protocol>) -> (r: Vec<Protocol>)
    ensures
        r@ == sort_by_name(protocols@),
{
    let ghost all = protocols@;
    let mut out: Vec<Protocol> = Vec::new();
    let mut rest = protocols;
    let n = rest.len();
    let mut i: usize = 0;
    assert(all.take(0) =~= Seq::<Protocol>::empty());
    while i < n
        invariant
            n == all.len(),
            i <= n,
            rest@ == all.subrange(i as int, n as int),
            out@ == sort_by_name(all.take(i as int)),
        decreases n - i,
    {
        let p = rest.remove(0);
        assert(p == all[i as int]);
        let mut j = out.len();
        while j > 0 && !name_le_exec(out[j - 1].capability_name(), p.capability_name())
            invariant
                j <= out@.len(),
                forall|k: int|
                    j <= k < out@.len() ==> !name_le(
                        out@[k].capability().name@,
                        p.capability().name@,
                    ),
            decreases j,
        {
            j = j - 1;
        }
        proof {
            lemma_insert_at(out@, p, j as int);
            assert(all.take(i + 1).drop_last() =~= all.take(i as int));
            assert(all.take(i + 1).last() == p);
        }
        out.insert(j, p);
        assert(out@ =~= sort_by_name(all.take(i + 1)));
        i = i + 1;
        assert(rest@ =~= all.subrange(i as int, n as int));
    }
    assert(all.take(n as int) =~= all);
    out
}

/// Lays out the protocols that a connection shares in the message-id space in the order of
/// their names, as peers do: the first one from id 0, each next one right after the ids of the
/// one before. `None` exactly when the ids they reserve together do not fit in a byte.
pub fn shared_in_name_order(protocols: Vec<Protocol>) -> (r: Option<Vec<SharedCapability>>)
    ensures
        match r {
            Some(caps) => {
                let sorted = sort_by_name(protocols@);
                &&& caps@.len() == sorted.len()
                &&& forall|i: int|
                    0 <= i < caps@.len() ==> (#[trigger] caps@[i]).cap == sorted[i].capability()
                        && caps@[i].messages == sorted[i].message_ids()
                &&& caps@.len() > 0 ==> caps@[0].offset == 0
                &&& forall|i: int|
                    0 < i < caps@.len() ==> (#[trigger] caps@[i]).offset == caps@[i - 1].offset
                        + caps@[i - 1].messages
            },
            None => true,
        },
        r is None <==> total_message_ids(protocols@) > 255,
{
    proof {
        lemma_sort_by_name(protocols@);
    }
    let sorted = sort_protocols_by_name(protocols);
    shared_in_order(sorted)
}

/// Finds the `snap/2` message-id offset of a connection that shares exactly `sil` at offset 0
/// immediately followed by `snap/2`; any other layout is refused, since the stream sends every
/// id below the offset to `sil` and every id at or above it to `snap`.
pub fn eth_snap_layout(caps: &Vec<SharedCapability>) -> (r: Result<u8, SilStreamError>)
    ensures
        match eth_snap_offset(caps@) {
            Some(off) => r == Ok::<u8, SilStreamError>(off),
            None => r == Err::<u8, SilStreamError>(SilStreamError::CapabilityNotShared),
        },
{
    if caps.len() != 2 {
        return Err(SilStreamError::CapabilityNotShared);
    }
    let sil = &caps[0];
    let snap = &caps[1];
    if !is_snap_text(&snap.cap.name) || snap.cap.version != 2 {
        return Err(SilStreamError::CapabilityNotShared);
    }
    if !is_sil_text(&sil.cap.name) || sil.offset != 0 || sil.messages != snap.offset {
        return Err(SilStreamError::CapabilityNotShared);
    }
    Ok(snap.offset)
}

/// Rebases a snap-relative message id into the combined message space: the first byte grows
/// by the snap offset. Fails, leaving the bytes as they were, on an empty message or an id that
/// does not fit in a byte.
pub fn mask_snap(bytes: &mut Vec<u8>, snap_offset: u8) -> (r: Result<(), SilStreamError>)
    ensures
        old(bytes)@.len() == 0 || old(bytes)@[0] + snap_offset > 255 ==> r == Err::<
            (),
            SilStreamError,
        >(SilStreamError::InvalidInput) && final(bytes)@ == old(bytes)@,
        old(bytes)@.len() > 0 && old(bytes)@[0] + snap_offset <= 255 ==> r == Ok::<
            (),
            SilStreamError,
        >(()) && final(bytes)@ == old(bytes)@.update(0, (old(bytes)@[0] + snap_offset) as u8),
{
    if bytes.len() == 0 {
        return Err(SilStreamError::InvalidInput);
    }
    let id = bytes[0];
    match id.checked_add(snap_offset) {
        None => Err(SilStreamError::InvalidInput),
        Some(v) => {
            bytes.set(0, v);
            Ok(())
        },
    }
}

/// Which protocol an inbound frame belongs to.
#[derive(Clone, Copy, Debug, PartialEq, Eq, Structural)]
pub enum InboundFrame {
    /// An `sil` message, to be decoded as it is.
    Sil,
    /// A `snap/2` message, whose first byte has been rebased to a snap-relative id.
    Snap,
}

/// A connection that carries `sil` as its primary protocol and `snap/2` beside it.
#[derive(Debug)]
pub struct SilSnapStream<C> {
    conn: C,
    sil: SilStreamInner,
    snap_offset: u8,
}

impl<C> SilSnapStream<C> {
    /// The connection.
    pub closed spec fn spec_conn(&self) -> C {
        self.conn
    }

    /// The `sil` logic.
    pub closed spec fn spec_sil(&self) -> SilStreamInner {
        self.sil
    }

    /// The first message id of `snap/2`.
    pub closed spec fn spec_snap_offset(&self) -> u8 {
        self.snap_offset
    }

    /// Sets up the stream on a connection whose shared capabilities were laid out by
    /// [`eth_snap_layout`], once the status handshake has succeeded.
    pub fn established(
        conn: C,
        caps: &Vec<SharedCapability>,
        version: SilVersion,
        max_message_size: usize,
    ) -> (r: Result<SilSnapStream<C>, SilStreamError>)
        ensures
            match eth_snap_offset(caps@) {
                Some(off) => r matches Ok(s) && s.spec_snap_offset() == off && s.spec_conn()
                    == conn && s.spec_sil().spec_version() == version
                    && s.spec_sil().spec_max_message_size() == max_message_size
                    && !s.spec_sil().spec_rejects_block_announcements(),
                None => r matches Err(SilStreamError::CapabilityNotShared),
            },
    {
        let snap_offset = eth_snap_layout(caps)?;
        let sil = SilStreamInner::with_max_message_size(version, max_message_size);
        Ok(SilSnapStream { conn, sil, snap_offset })
    }

    /// Returns the negotiated `sil` version.
    pub fn version(&self) -> (r: SilVersion)
        ensures
            r == self.spec_sil().spec_version(),
    {
        self.sil.version()
    }

    /// Sets whether block announcements are refused before decoding.
    pub fn set_reject_block_announcements(&mut self, reject: bool)
        ensures
            final(self).spec_sil().spec_rejects_block_announcements() == reject,
            final(self).spec_sil().spec_version() == old(self).spec_sil().spec_version(),
            final(self).spec_sil().spec_max_message_size() == old(
                self,
            ).spec_sil().spec_max_message_size(),
            final(self).spec_snap_offset() == old(self).spec_snap_offset(),
            final(self).spec_conn() == old(self).spec_conn(),
    {
        self.sil.set_reject_block_announcements(reject);
    }

    /// The `sil` logic of the stream.
    pub fn sil(&self) -> (r: &SilStreamInner)
        ensures
            *r == self.spec_sil(),
    {
        &self.sil
    }

    /// Returns the underlying connection.
    pub fn inner(&self) -> (r: &C)
        ensures
            *r == self.spec_conn(),
    {
        &self.conn
    }

    /// Returns mutable access to the underlying connection.
    pub fn inner_mut(&mut self) -> (r: &mut C)
        ensures
            *r == old(self).spec_conn(),
            final(self).spec_conn() == *final(r),
            final(self).spec_sil() == old(self).spec_sil(),
            final(self).spec_snap_offset() == old(self).spec_snap_offset(),
    {
        &mut self.conn
    }

    /// Consumes this type and returns the underlying connection.
    pub fn into_inner(self) -> (r: C)
        ensures
            r == self.spec_conn(),
    {
        self.conn
    }

    /// Tells which protocol an inbound frame belongs to: ids below the snap offset are `sil`
    /// and stay as they are; the others are `snap/2`, rebased to snap-relative ids. An empty
    /// frame is an error.
    pub fn route_inbound(&self, bytes: &mut Vec<u8>) -> (r: Result<InboundFrame, SilStreamError>)
        ensures
            old(bytes)@.len() == 0 ==> r == Err::<InboundFrame, SilStreamError>(
                SilStreamError::EmptyProtocolMessage,
            ) && final(bytes)@ == old(bytes)@,
            old(bytes)@.len() > 0 && old(bytes)@[0] < self.spec_snap_offset() ==> r == Ok::<
                InboundFrame,
                SilStreamError,
            >(InboundFrame::Sil) && final(bytes)@ == old(bytes)@,
            old(bytes)@.len() > 0 && old(bytes)@[0] >= self.spec_snap_offset() ==> r == Ok::<
                InboundFrame,
                SilStreamError,
            >(InboundFrame::Snap) && final(bytes)@ == old(bytes)@.update(
                0,
                (old(bytes)@[0] - self.spec_snap_offset()) as u8,
            ),
    {
        if bytes.len() == 0 {
            return Err(SilStreamError::EmptyProtocolMessage);
        }
        let id = bytes[0];
        match id.checked_sub(self.snap_offset) {
            None => Ok(InboundFrame::Sil),
            Some(snap_id) => {
                bytes.set(0, snap_id);
                Ok(InboundFrame::Snap)
            },
        }
    }

    /// Frames an outbound `snap/2` message: rebases its snap-relative id into the combined
    /// message space.
    pub fn frame_snap(&self, bytes: &mut Vec<u8>) -> (r: Result<(), SilStreamError>)
        ensures
            old(bytes)@.len() == 0 || old(bytes)@[0] + self.spec_snap_offset() > 255 ==> r == Err::<
                (),
                SilStreamError,
            >(SilStreamError::InvalidInput) && final(bytes)@ == old(bytes)@,
            old(bytes)@.len() > 0 && old(bytes)@[0] + self.spec_snap_offset() <= 255 ==> r == Ok::<
                (),
                SilStreamError,
            >(()) && final(bytes)@ == old(bytes)@.update(
                0,
                (old(bytes)@[0] + self.spec_snap_offset()) as u8,
            ),
    {
        mask_snap(bytes, self.snap_offset)
    }
}

/// A snap message framed for the wire is routed back to `snap` with its original bytes.
pub proof fn lemma_snap_frame_roundtrip(bytes: Seq<u8>, off: u8)
    requires
        bytes.len() > 0,
        bytes[0] + off <= 255,
    ensures
        ({
            let framed = bytes.update(0, (bytes[0] + off) as u8);
            &&& framed[0] >= off
            &&& framed.update(0, (framed[0] - off) as u8) == bytes
        }),
{
    let framed = bytes.update(0, (bytes[0] + off) as u8);
    assert(framed.update(0, (framed[0] - off) as u8) =~= bytes);
}

} // verus!
