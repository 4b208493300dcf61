use crate::vote_event::VoteEvent;
use std::collections::VecDeque;
use vstd::prelude::*;

verus! {

/// The last `n` entries of `s`, in their order; all of `s` where it holds
/// no more than `n`.
pub open spec fn retain_newest(s: Seq<VoteEvent>, n: nat) -> Seq<VoteEvent> {
    if s.len() <= n {
        s
    } else {
        s.subrange(s.len() - n, s.len() as int)
    }
}

/// `s` in the opposite order: its last entry first.
pub open spec fn newest_first(s: Seq<VoteEvent>) -> Seq<VoteEvent> {
    Seq::new(s.len(), |i: int| s[s.len() - 1 - i])
}

/// What a cache of capacity `cap` holds, oldest first, when it started empty
/// and `events` were then added one after another.
pub open spec fn after_adds(cap: nat, events: Seq<VoteEvent>) -> Seq<VoteEvent>
    decreases events.len(),
{
    if events.len() == 0 {
        Seq::empty()
    } else {
        retain_newest(after_adds(cap, events.drop_last()).push(events.last()), cap)
    }
}

/// A bounded buffer of the most recent votes.
///
/// It holds at most `capacity` events in the order they were added. Adding to
/// a full buffer drops its oldest event. The buffer does no locking of its
/// own: a service that shares one between request handlers puts it behind a
/// mutex and holds that only for the length of one `add` or `snapshot`.
pub struct RecentVotesCache {
    events: VecDeque<VoteEvent>,
    capacity: usize,
}

impl View for RecentVotesCache {
    type V = Seq<VoteEvent>;

    /// The retained events, oldest first.
    closed spec fn view(&self) -> Seq<VoteEvent> {
        self.events@
    }
}

impl RecentVotesCache {
    #[verifier::type_invariant]
    spec fn within_capacity(&self) -> bool {
        self.events@.len() <= self.capacity
    }

    /// The most events the cache retains.
    pub closed spec fn max_len(&self) -> nat {
        self.capacity as nat
    }

    /// An empty cache that keeps at most `capacity` events.
    pub fn new(capacity: usize) -> (r: RecentVotesCache)
        ensures
            r@ == Seq::<VoteEvent>::empty(),
            r.max_len() == capacity,
    {
        RecentVotesCache { events: VecDeque::new(), capacity }
    }

    /// Appends `event` as the newest entry, dropping the oldest one first
    /// where the cache is full. A cache of capacity zero stays empty.
    pub fn add(&mut self, event: VoteEvent)
        ensures
            final(self)@ == retain_newest(old(self)@.push(event), old(self).max_len()),
            final(self).max_len() == old(self).max_len(),
            old(self)@.len() <= old(self).max_len(),
    {
        proof {
            use_type_invariant(&*self);
        }
        if self.capacity == 0 {
            return;
        }
        let ghost before = self.events@;
        let mut events = VecDeque::new();
        std::mem::swap(&mut self.events, &mut events);
        if events.len() == self.capacity {
            events.pop_front();
        }
        events.push_back(event);
        assert(events@ =~= retain_newest(before.push(event), self.capacity as nat));
        std::mem::swap(&mut self.events, &mut events);
    }

    /// A copy of the retained events, newest first.
    pub fn snapshot(&self) -> (r: Vec<VoteEvent>)
        ensures
            r@ == newest_first(self@),
    {
        let n = self.events.len();
        self.recent(n)
    }

    /// A copy of the `n` newest events, newest first; all of them where the
    /// cache holds fewer than `n`.
    pub fn recent(&self, n: usize) -> (r: Vec<VoteEvent>)
        ensures
            r@ == newest_first(retain_newest(self@, n as nat)),
    {
        let len = self.events.len();
        let count: usize = if n < len {
            n
        } else {
            len
        };
        let ghost target = newest_first(retain_newest(self@, n as nat));
        assert(target.len() == count);
        let mut r: Vec<VoteEvent> = Vec::with_capacity(count);
        let mut k: usize = 0;
        while k < count
            invariant
                count <= len,
                len == self.events@.len(),
                target == newest_first(retain_newest(self@, n as nat)),
                target.len() == count,
                k <= count,
                r@ == target.take(k as int),
            decreases count - k,
        {
            let e = self.events[len - 1 - k].clone();
            assert(target[k as int] == self.events@[len - 1 - k]);
            r.push(e);
            k = k + 1;
            assert(r@ =~= target.take(k as int));
        }
        assert(r@ =~= target);
        r
    }

    /// How many events the cache holds; never more than its capacity.
    pub fn len(&self) -> (r: usize)
        ensures
            r == self@.len(),
            r <= self.max_len(),
    {
        proof {
            use_type_invariant(self);
        }
        self.events.len()
    }

    /// Whether the cache holds no event.
    pub fn is_empty(&self) -> (r: bool)
        ensures
            r == (self@.len() == 0),
    {
        self.events.len() == 0
    }

    /// The most events the cache retains.
    pub fn capacity(&self) -> (r: usize)
        ensures
            r == self.max_len(),
    {
        self.capacity
    }
}

/// One more add takes a cache from `after_adds(cap, events)` to
/// `after_adds(cap, events.push(event))`: the state that `add` leaves is the
/// one `after_adds` describes.
pub proof fn lemma_after_adds_step(cap: nat, events: Seq<VoteEvent>, event: VoteEvent)
    ensures
        after_adds(cap, events.push(event)) == retain_newest(
            after_adds(cap, events).push(event),
            cap,
        ),
{
    assert(events.push(event).drop_last() =~= events);
}

/// Adding events one by one to an empty cache leaves exactly the newest
/// `cap` of them, in the order they were added: a contiguous suffix of the
/// arrival order, with nothing repeated and nothing lost but the evicted
/// prefix.
pub proof fn lemma_adds_keep_newest_suffix(cap: nat, events: Seq<VoteEvent>)
    ensures
        after_adds(cap, events) == retain_newest(events, cap),
    decreases events.len(),
{
    if events.len() > 0 {
        let prefix = events.drop_last();
        lemma_adds_keep_newest_suffix(cap, prefix);
        assert(retain_newest(retain_newest(prefix, cap).push(events.last()), cap)
            =~= retain_newest(events, cap));
    } else {
        assert(retain_newest(events, cap) =~= Seq::<VoteEvent>::empty());
    }
}

/// After any run of adds to an empty cache of capacity `cap`, it holds
/// `min(cap, number of adds)` events.
pub proof fn lemma_adds_keep_capacity(cap: nat, events: Seq<VoteEvent>)
    ensures
        after_adds(cap, events).len() == if events.len() < cap {
            events.len()
        } else {
            cap
        },
{
    lemma_adds_keep_newest_suffix(cap, events);
}

/// A snapshot taken before an add does not hold the added event, unless an
/// equal event was already retained; a snapshot taken after it holds the
/// event as its first entry, and exactly once where it was not retained
/// before. The one exception is a cache of capacity zero, which retains
/// nothing.
pub proof fn lemma_snapshot_isolation(cap: nat, before: Seq<VoteEvent>, event: VoteEvent)
    requires
        cap > 0,
    ensures
        ({
            let after = newest_first(retain_newest(before.push(event), cap));
            &&& after.len() > 0
            &&& after[0] == event
            &&& !before.contains(event) ==> {
                &&& !newest_first(before).contains(event)
                &&& forall|i: int| 0 < i < after.len() ==> after[i] != event
            }
        }),
{
    let after = newest_first(retain_newest(before.push(event), cap));
    if !before.contains(event) {
        if newest_first(before).contains(event) {
            let j = choose|j: int| 0 <= j < before.len() && newest_first(before)[j] == event;
            assert(before[before.len() - 1 - j] == event);
        }
        assert forall|i: int| 0 < i < after.len() implies after[i] != event by {
            let kept = retain_newest(before.push(event), cap);
            let full = before.push(event);
            let idx = kept.len() - 1 - i;
            assert(kept[idx] == full[full.len() - kept.len() + idx]);
            assert(before[full.len() - kept.len() + idx] == kept[idx]);
        }
    }
}

/// Two snapshots with no add between them are equal: a snapshot depends on
/// the retained events alone.
pub proof fn lemma_snapshot_repeatable(cache: RecentVotesCache, first: Seq<VoteEvent>, second: Seq<
    VoteEvent,
>)
    requires
        first == newest_first(cache@),
        second == newest_first(cache@),
    ensures
        first == second,
{
}

} // verus!
