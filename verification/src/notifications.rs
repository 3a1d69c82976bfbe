//! Buffering of committed chain segments until a finalized block covers them.
//!
//! Commits are buffered as they arrive, a reorg drops everything buffered, and each new
//! finalized block releases the buffered commits that end at or below it, ordered by the first
//! block they contain.

use vstd::prelude::*;
use vstd::multiset::Multiset;

verus! {

/// A committed chain segment: an id the caller uses to find the notification again, and the
/// first and last block numbers it covers.
#[derive(Clone, Copy, Debug, PartialEq, Eq, Structural)]
pub struct CommitRange {
    /// Identifier of the notification.
    pub id: u64,
    /// First block of the segment.
    pub first: u64,
    /// Last block of the segment.
    pub last: u64,
}

/// A canonical-state notification, as the buffer sees it.
#[derive(Clone, Copy, Debug, PartialEq, Eq, Structural)]
pub enum CanonEvent {
    /// A segment was committed.
    Commit(CommitRange),
    /// The chain was reorganised.
    Reorg,
}

/// Whether a segment is covered by the finalized block `n`.
pub open spec fn finalized_by(n: u64) -> spec_fn(CommitRange) -> bool {
    |c: CommitRange| c.last <= n
}

/// Whether a segment is not yet covered by the finalized block `n`.
pub open spec fn pending_after(n: u64) -> spec_fn(CommitRange) -> bool {
    |c: CommitRange| c.last > n
}

/// Whether a segment starts at block `k`.
pub open spec fn starts_at(k: u64) -> spec_fn(CommitRange) -> bool {
    |c: CommitRange| c.first == k
}

/// Whether segments are ordered by their first block.
pub open spec fn sorted_by_first(s: Seq<CommitRange>) -> bool {
    forall|i: int, j: int| 0 <= i <= j < s.len() ==> s[i].first <= s[j].first
}

/// What the finalized block `finalized` does to the buffered segments `before`: the ones it
/// covers are `released`, ordered by their first block (those with the same first block in the
/// order they were buffered), and the others stay as `after`, in their order.
pub open spec fn released_by(
    before: Seq<CommitRange>,
    finalized: u64,
    after: Seq<CommitRange>,
    released: Seq<CommitRange>,
) -> bool {
    &&& after == before.filter(pending_after(finalized))
    &&& released.to_multiset() == before.filter(finalized_by(finalized)).to_multiset()
    &&& sorted_by_first(released)
    &&& forall|i: int| 0 <= i < released.len() ==> (#[trigger] released[i]).last <= finalized
    &&& forall|k: u64|
        #[trigger] released.filter(starts_at(k)) == before.filter(finalized_by(finalized)).filter(
            starts_at(k),
        )
}

/// The buffer of committed segments not yet released.
#[derive(Debug)]
pub struct FinalizedNotificationBuffer {
    buffered: Vec<CommitRange>,
}

impl View for FinalizedNotificationBuffer {
    type V = Seq<CommitRange>;

    closed spec fn view(&self) -> Seq<CommitRange> {
        self.buffered@
    }
}

/// Inserts `x` into a sorted vector, after every element whose first block is not above its
/// own.
fn insert_sorted(out: &mut Vec<CommitRange>, x: CommitRange)
    requires
        sorted_by_first(old(out)@),
    ensures
        sorted_by_first(final(out)@),
        final(out)@.to_multiset() =~= old(out)@.to_multiset().insert(x),
        forall|k: u64|
            #[trigger] final(out)@.filter(starts_at(k)) == (if k == x.first {
                old(out)@.filter(starts_at(k)).push(x)
            } else {
                old(out)@.filter(starts_at(k))
            }),
{
    let mut j = out.len();
    while j > 0 && out[j - 1].first > x.first
        invariant
            j <= out.len(),
            sorted_by_first(out@),
            forall|k: int| j <= k < out@.len() ==> out@[k].first > x.first,
        decreases j,
    {
        j = j - 1;
    }
    let ghost before = out@;
    out.insert(j, x);
    proof {
        let a = before.subrange(0, j as int);
        let b = before.subrange(j as int, before.len() as int);
        assert(before =~= a + b);
        assert(out@ =~= a.push(x) + b);
        vstd::seq_lib::lemma_multiset_commutative(a.push(x), b);
        vstd::seq_lib::lemma_multiset_commutative(a, b);
        a.to_multiset_ensures();
        assert(a.push(x).to_multiset() =~= a.to_multiset().insert(x));
        if j > 0 {
            assert(before[j - 1].first <= x.first);
        }
        assert forall|k: u64|
            #[trigger] out@.filter(starts_at(k)) == (if k == x.first {
                before.filter(starts_at(k)).push(x)
            } else {
                before.filter(starts_at(k))
            }) by {
            Seq::filter_distributes_over_add(a.push(x), b, starts_at(k));
            Seq::filter_distributes_over_add(a, b, starts_at(k));
            a.lemma_filter_push(x, starts_at(k));
            if k == x.first {
                assert forall|m: int| 0 <= m < b.len() implies !starts_at(k)(#[trigger] b[m]) by {
                    assert(b[m] == out@[j + 1 + m]);
                }
                b.lemma_all_neg_filter_empty(starts_at(k));
                assert(b.filter(starts_at(k)) =~= Seq::<CommitRange>::empty());
                assert(a.filter(starts_at(k)) + b.filter(starts_at(k)) =~= a.filter(starts_at(k)));
                assert(a.filter(starts_at(k)).push(x) + b.filter(starts_at(k)) =~= a.filter(
                    starts_at(k),
                ).push(x));
            }
        }
        assert forall|p: int, q: int| 0 <= p <= q < out@.len() implies out@[p].first
            <= out@[q].first by {
            if p < j && q > j {
                assert(out@[p] == before[p]);
                assert(out@[q] == before[q - 1]);
            } else if p < j && q == j {
                assert(before[p].first <= before[j - 1].first);
            } else if p == j && q > j {
                assert(out@[q] == before[q - 1]);
            } else if p > j {
                assert(out@[p] == before[p - 1]);
                assert(out@[q] == before[q - 1]);
            }
        }
    }
}

impl FinalizedNotificationBuffer {
    /// An empty buffer.
    pub fn new() -> (r: FinalizedNotificationBuffer)
        ensures
            r@ == Seq::<CommitRange>::empty(),
    {
        FinalizedNotificationBuffer { buffered: Vec::new() }
    }

    /// Records a canonical-state notification: a commit is buffered, a reorg drops everything
    /// buffered.
    pub fn on_canon(&mut self, event: CanonEvent)
        ensures
            match event {
                CanonEvent::Commit(c) => final(self)@ == old(self)@.push(c),
                CanonEvent::Reorg => final(self)@ == Seq::<CommitRange>::empty(),
            },
            buffer_step(old(self)@, BufferEvent::Canon(event), final(self)@, Seq::empty()),
    {
        match event {
            CanonEvent::Commit(c) => self.buffered.push(c),
            CanonEvent::Reorg => self.buffered.clear(),
        }
    }

    /// Releases the buffered segments that end at or below the finalized block `finalized`,
    /// ordered by their first block, segments with the same first block in the order they were
    /// buffered; the others stay buffered, in their order. An empty result means nothing is
    /// sent.
    pub fn on_finalized(&mut self, finalized: u64) -> (r: Vec<CommitRange>)
        ensures
            released_by(old(self)@, finalized, final(self)@, r@),
    {
        let ghost all = self.buffered@;
        let mut kept: Vec<CommitRange> = Vec::new();
        let mut released: Vec<CommitRange> = Vec::new();
        let n = self.buffered.len();
        let mut i: usize = 0;
        proof {
            reveal(Seq::filter);
            assert(all.take(0) =~= Seq::<CommitRange>::empty());
            assert(all.take(0).filter(finalized_by(finalized)) =~= Seq::<CommitRange>::empty());
            assert(all.take(0).filter(pending_after(finalized)) =~= Seq::<CommitRange>::empty());
            Seq::<CommitRange>::empty().to_multiset_ensures();
            assert(released@ =~= Seq::<CommitRange>::empty());
            assert forall|k: u64|
                #[trigger] released@.filter(starts_at(k)) == all.take(0).filter(
                    finalized_by(finalized),
                ).filter(starts_at(k)) by {
                assert(released@.filter(starts_at(k)) =~= Seq::<CommitRange>::empty());
                assert(all.take(0).filter(finalized_by(finalized)).filter(starts_at(k))
                    =~= Seq::<CommitRange>::empty());
            }
        }
        while i < n
            invariant
                n == all.len(),
                self.buffered@ == all,
                i <= n,
                kept@ == all.take(i as int).filter(pending_after(finalized)),
                sorted_by_first(released@),
                released@.to_multiset() == all.take(i as int).filter(
                    finalized_by(finalized),
                ).to_multiset(),
                forall|k: u64|
                    #[trigger] released@.filter(starts_at(k)) == all.take(i as int).filter(
                        finalized_by(finalized),
                    ).filter(starts_at(k)),
            decreases n - i,
        {
            let c = self.buffered[i];
            let ghost t = all.take(i as int);
            proof {
                assert(all.take(i + 1) =~= t.push(c));
                t.lemma_filter_push(c, finalized_by(finalized));
                t.lemma_filter_push(c, pending_after(finalized));
                assert(finalized_by(finalized)(c) == (c.last <= finalized));
                assert(pending_after(finalized)(c) == (c.last > finalized));
            }
            if c.last <= finalized {
                insert_sorted(&mut released, c);
                proof {
                    let f = t.filter(finalized_by(finalized));
                    f.to_multiset_ensures();
                    assert(f.push(c).to_multiset() =~= f.to_multiset().insert(c));
                    assert forall|k: u64|
                        #[trigger] released@.filter(starts_at(k)) == all.take(i + 1).filter(
                            finalized_by(finalized),
                        ).filter(starts_at(k)) by {
                        f.lemma_filter_push(c, starts_at(k));
                    }
                }
            } else {
                kept.push(c);
            }
            i = i + 1;
        }
        assert(all.take(n as int) =~= all);
        self.buffered = kept;
        proof {
            let f = all.filter(finalized_by(finalized));
            f.to_multiset_ensures();
            released@.to_multiset_ensures();
            assert forall|k: int| 0 <= k < released@.len() implies (#[trigger] released@[k]).last
                <= finalized by {
                assert(released@.to_multiset().count(released@[k]) > 0);
                assert(f.to_multiset().count(released@[k]) > 0);
                assert(f.contains(released@[k]));
                let m = choose|m: int| 0 <= m < f.len() && f[m] == released@[k];
                all.lemma_filter_pred(finalized_by(finalized), m);
            }
        }
        released
    }

    /// What to send on the finalized block `finalized`: the segments it releases, as
    /// `on_finalized` gives them, as one message, or no message where it releases none.
    pub fn on_finalized_message(&mut self, finalized: u64) -> (r: Option<Vec<CommitRange>>)
        ensures
            match r {
                Some(message) => message@.len() > 0 && released_by(
                    old(self)@,
                    finalized,
                    final(self)@,
                    message@,
                ),
                None => released_by(old(self)@, finalized, final(self)@, Seq::empty()),
            },
    {
        let released = self.on_finalized(finalized);
        if released.len() == 0 {
            proof {
                assert(released@ =~= Seq::<CommitRange>::empty());
            }
            None
        } else {
            Some(released)
        }
    }
}

/// After a reorg, whatever was buffered before it, the next finalized block releases nothing
/// and leaves the buffer empty.
pub proof fn lemma_reorg_forgets(buffered_after_reorg: Seq<CommitRange>, finalized: u64)
    requires
        buffered_after_reorg == Seq::<CommitRange>::empty(),
    ensures
        buffered_after_reorg.filter(finalized_by(finalized)) == Seq::<CommitRange>::empty(),
        buffered_after_reorg.filter(pending_after(finalized)) == Seq::<CommitRange>::empty(),
{
    reveal(Seq::filter);
    assert(buffered_after_reorg.filter(finalized_by(finalized)) =~= Seq::<CommitRange>::empty());
    assert(buffered_after_reorg.filter(pending_after(finalized)) =~= Seq::<CommitRange>::empty());
}

/// A release neither loses nor duplicates a commit: what the finalized block `finalized`
/// releases, together with what stays buffered, is what was buffered.
pub proof fn lemma_release_conserves(buffered: Seq<CommitRange>, finalized: u64)
    ensures
        buffered.filter(finalized_by(finalized)).to_multiset().add(
            buffered.filter(pending_after(finalized)).to_multiset(),
        ) == buffered.to_multiset(),
    decreases buffered.len(),
{
    let released = finalized_by(finalized);
    let kept = pending_after(finalized);
    if buffered.len() == 0 {
        reveal(Seq::filter);
        assert(buffered.filter(released) =~= Seq::<CommitRange>::empty());
        assert(buffered.filter(kept) =~= Seq::<CommitRange>::empty());
        buffered.to_multiset_ensures();
        Seq::<CommitRange>::empty().to_multiset_ensures();
        assert(buffered.to_multiset() =~= Multiset::empty());
        assert(Multiset::<CommitRange>::empty().add(Multiset::empty()) =~= Multiset::empty());
    } else {
        let init = buffered.drop_last();
        let c = buffered.last();
        lemma_release_conserves(init, finalized);
        assert(init.push(c) =~= buffered);
        init.lemma_filter_push(c, released);
        init.lemma_filter_push(c, kept);
        init.to_multiset_ensures();
        init.filter(released).to_multiset_ensures();
        init.filter(kept).to_multiset_ensures();
        if c.last <= finalized {
            assert(released(c));
            assert(!kept(c));
            assert(buffered.filter(released).to_multiset() =~= init.filter(released).to_multiset().insert(c));
        } else {
            assert(!released(c));
            assert(kept(c));
            assert(buffered.filter(kept).to_multiset() =~= init.filter(kept).to_multiset().insert(c));
        }
        assert(buffered.to_multiset() =~= init.to_multiset().insert(c));
        assert(buffered.filter(released).to_multiset().add(buffered.filter(kept).to_multiset())
            =~= buffered.to_multiset());
    }
}

/// What reaches the buffer: a canonical-state notification or a new finalized block.
#[derive(Clone, Copy, Debug, PartialEq, Eq, Structural)]
pub enum BufferEvent {
    /// A canonical-state notification.
    Canon(CanonEvent),
    /// A new finalized block, by its number.
    Finalized(u64),
}

/// One step of the buffer: `after` is the buffer once `event` arrived at `before`, and
/// `released` what it sends (nothing on a canonical-state notification).
pub open spec fn buffer_step(
    before: Seq<CommitRange>,
    event: BufferEvent,
    after: Seq<CommitRange>,
    released: Seq<CommitRange>,
) -> bool {
    match event {
        BufferEvent::Canon(CanonEvent::Commit(c)) => after == before.push(c) && released
            == Seq::<CommitRange>::empty(),
        BufferEvent::Canon(CanonEvent::Reorg) => after == Seq::<CommitRange>::empty() && released
            == Seq::<CommitRange>::empty(),
        BufferEvent::Finalized(n) => released_by(before, n, after, released),
    }
}

/// The segments committed since the last reorg, in order.
pub open spec fn live_commits(events: Seq<BufferEvent>) -> Seq<CommitRange>
    decreases events.len(),
{
    if events.len() == 0 {
        Seq::empty()
    } else {
        match events.last() {
            BufferEvent::Canon(CanonEvent::Commit(c)) => live_commits(events.drop_last()).push(c),
            BufferEvent::Canon(CanonEvent::Reorg) => Seq::empty(),
            BufferEvent::Finalized(_) => live_commits(events.drop_last()),
        }
    }
}

/// The segments sent since the last reorg, in the order they were sent, where `sent[i]` is
/// what the `i`-th event sent.
pub open spec fn sent_since_reorg(events: Seq<BufferEvent>, sent: Seq<Seq<CommitRange>>) -> Seq<
    CommitRange,
>
    decreases events.len(),
{
    if events.len() == 0 || sent.len() != events.len() {
        Seq::empty()
    } else {
        match events.last() {
            BufferEvent::Canon(CanonEvent::Reorg) => Seq::empty(),
            _ => sent_since_reorg(events.drop_last(), sent.drop_last()) + sent.last(),
        }
    }
}

/// One step more of a run keeps its account: what was sent since the last reorg, together with
/// what is buffered, is what was committed since the last reorg.
proof fn lemma_run_step(
    events: Seq<BufferEvent>,
    sent: Seq<Seq<CommitRange>>,
    before: Seq<CommitRange>,
    after: Seq<CommitRange>,
)
    requires
        events.len() > 0,
        sent.len() == events.len(),
        sent_since_reorg(events.drop_last(), sent.drop_last()).to_multiset().add(
            before.to_multiset(),
        ) == live_commits(events.drop_last()).to_multiset(),
        buffer_step(before, events.last(), after, sent.last()),
    ensures
        sent_since_reorg(events, sent).to_multiset().add(after.to_multiset()) == live_commits(
            events,
        ).to_multiset(),
{
    let s0 = sent_since_reorg(events.drop_last(), sent.drop_last());
    let l0 = live_commits(events.drop_last());
    s0.to_multiset_ensures();
    before.to_multiset_ensures();
    after.to_multiset_ensures();
    l0.to_multiset_ensures();
    sent.last().to_multiset_ensures();
    Seq::<CommitRange>::empty().to_multiset_ensures();
    vstd::seq_lib::lemma_multiset_commutative(s0, sent.last());
    match events.last() {
        BufferEvent::Canon(CanonEvent::Commit(c)) => {
            assert(s0 + sent.last() =~= s0);
            assert(sent_since_reorg(events, sent).to_multiset().add(after.to_multiset())
                =~= live_commits(events).to_multiset());
        },
        BufferEvent::Canon(CanonEvent::Reorg) => {
            assert(sent_since_reorg(events, sent).to_multiset().add(after.to_multiset())
                =~= live_commits(events).to_multiset());
        },
        BufferEvent::Finalized(n) => {
            lemma_release_conserves(before, n);
            assert(sent_since_reorg(events, sent).to_multiset().add(after.to_multiset())
                =~= live_commits(events).to_multiset());
        },
    }
}

/// A run of the buffer from empty, one buffer state after each event and what each event sent:
/// every batch sent on a finalized block is ordered by first block and ends at or below that
/// block, nothing is sent on a canonical-state notification, and at every point what was sent
/// since the last reorg, together with what is buffered, is exactly what was committed since the
/// last reorg. So each commit is sent at most once, a commit that a reorg overtakes before it is
/// sent is never sent, and a commit not yet covered by a finalized block stays buffered.
pub proof fn lemma_finalized_run(
    events: Seq<BufferEvent>,
    states: Seq<Seq<CommitRange>>,
    sent: Seq<Seq<CommitRange>>,
)
    requires
        states.len() == events.len() + 1,
        sent.len() == events.len(),
        states[0] == Seq::<CommitRange>::empty(),
        forall|i: int|
            0 <= i < events.len() ==> buffer_step(
                states[i],
                #[trigger] events[i],
                states[i + 1],
                sent[i],
            ),
    ensures
        forall|i: int|
            0 <= i < events.len() ==> (#[trigger] events[i] matches BufferEvent::Finalized(n) ==> {
                &&& sorted_by_first(sent[i])
                &&& forall|j: int| 0 <= j < sent[i].len() ==> sent[i][j].last <= n
            }),
        forall|i: int| 0 <= i < events.len() ==> (#[trigger] events[i] is Canon ==> sent[i].len() == 0),
        forall|k: int|
            0 <= k <= events.len() ==> #[trigger] sent_since_reorg(events.take(k), sent.take(k)).to_multiset().add(
                states[k].to_multiset(),
            ) == live_commits(events.take(k)).to_multiset(),
    decreases events.len(),
{
    if events.len() > 0 {
        let m = (events.len() - 1) as int;
        lemma_finalized_run(events.take(m), states.take(m + 1), sent.take(m));
        assert forall|k: int| 0 <= k <= events.len() implies #[trigger] sent_since_reorg(
            events.take(k),
            sent.take(k),
        ).to_multiset().add(states[k].to_multiset()) == live_commits(events.take(k)).to_multiset() by {
            if k <= m {
                assert(events.take(m).take(k) =~= events.take(k));
                assert(sent.take(m).take(k) =~= sent.take(k));
                assert(states.take(m + 1)[k] == states[k]);
            } else {
                assert(events.take(k) =~= events);
                assert(sent.take(k) =~= sent);
                assert(events.drop_last() =~= events.take(m));
                assert(sent.drop_last() =~= sent.take(m));
                assert(events.take(m).take(m) =~= events.take(m));
                assert(sent.take(m).take(m) =~= sent.take(m));
                assert(states.take(m + 1)[m] == states[m]);
                assert(buffer_step(states[m], events[m], states[m + 1], sent[m]));
                lemma_run_step(events, sent, states[m], states[m + 1]);
            }
        }
    } else {
        assert forall|k: int| 0 <= k <= events.len() implies #[trigger] sent_since_reorg(
            events.take(k),
            sent.take(k),
        ).to_multiset().add(states[k].to_multiset()) == live_commits(events.take(k)).to_multiset() by {
            assert(events.take(k) =~= Seq::<BufferEvent>::empty());
            Seq::<CommitRange>::empty().to_multiset_ensures();
            assert(Multiset::<CommitRange>::empty().add(Multiset::empty()) =~= Multiset::empty());
        }
    }
}

} // verus!
