//! Bounded FIFO staging area for events on their way to the guest.
use vstd::prelude::*;
use crate::protocol::VirtioInputEvent;

verus! {

/// The last `n` elements of `s`, or all of `s` when it has no more than `n`.
pub open spec fn keep_last(s: Seq<VirtioInputEvent>, n: nat) -> Seq<VirtioInputEvent> {
    if s.len() <= n {
        s
    } else {
        s.subrange(s.len() - n, s.len() as int)
    }
}

/// How many elements of `s` do not fit in `n`.
pub open spec fn overflow(s: Seq<VirtioInputEvent>, n: nat) -> nat {
    if s.len() <= n {
        0
    } else {
        (s.len() - n) as nat
    }
}

/// `a + k`, held at `u64::MAX`.
pub open spec fn saturating_add(a: u64, k: nat) -> u64 {
    if a + k > u64::MAX {
        u64::MAX
    } else {
        (a + k) as u64
    }
}

/// Pushing `e1` then `e2` on an empty buffer that holds at least two events,
/// then draining two, gives `[e1, e2]` in that order and leaves it empty.
pub proof fn lemma_push_push_drain(bound: nat, e1: VirtioInputEvent, e2: VirtioInputEvent)
    requires
        bound >= 2,
    ensures
        ({
            let s = keep_last(keep_last(Seq::<VirtioInputEvent>::empty().push(e1), bound).push(e2), bound);
            &&& s.len() == 2
            &&& s.take(2) == seq![e1, e2]
            &&& s.skip(2) == Seq::<VirtioInputEvent>::empty()
        }),
{
    let s = keep_last(keep_last(Seq::<VirtioInputEvent>::empty().push(e1), bound).push(e2), bound);
    assert(s.take(2) =~= seq![e1, e2]);
    assert(s.skip(2) =~= Seq::<VirtioInputEvent>::empty());
}

/// Appending `es` to a buffer holding `s` keeps the newest `bound` events in
/// order and drops the others, oldest first, counting exactly those beyond
/// the bound; when `es` alone fills the bound, only its newest remain.
pub proof fn lemma_overflow_drops_oldest(s: Seq<VirtioInputEvent>, es: Seq<VirtioInputEvent>, bound: nat)
    requires
        0 < bound,
        s.len() <= bound,
        s.len() + es.len() > bound,
    ensures
        keep_last(s + es, bound).len() == bound,
        keep_last(s + es, bound) == (s + es).subrange(s.len() + es.len() - bound, (s.len() + es.len()) as int),
        overflow(s + es, bound) == s.len() + es.len() - bound,
        es.len() >= bound ==> keep_last(s + es, bound) == es.subrange(es.len() - bound, es.len() as int),
        s.len() == bound && es.len() == 1 ==> keep_last(s + es, bound) == s.drop_first() + es,
{
    let all = s + es;
    if es.len() >= bound {
        assert(keep_last(all, bound) =~= es.subrange(es.len() - bound, es.len() as int));
    }
    if s.len() == bound && es.len() == 1 {
        assert(keep_last(all, bound) =~= s.drop_first() + es);
    }
}

/// Events in push order, at most `bound` of them; when more arrive, the oldest
/// are dropped and counted.
pub struct EventBuffer {
    events: Vec<VirtioInputEvent>,
    bound: usize,
    dropped: u64,
}

impl View for EventBuffer {
    type V = Seq<VirtioInputEvent>;

    closed spec fn view(&self) -> Seq<VirtioInputEvent> {
        self.events@
    }
}

/// `v[start..end]` as a new vector.
fn copy_range(v: &Vec<VirtioInputEvent>, start: usize, end: usize) -> (r: Vec<VirtioInputEvent>)
    requires
        start <= end <= v@.len(),
    ensures
        r@ == v@.subrange(start as int, end as int),
{
    let mut r: Vec<VirtioInputEvent> = Vec::new();
    let mut i: usize = start;
    while i < end
        invariant
            start <= i <= end <= v@.len(),
            r@ == v@.subrange(start as int, i as int),
        decreases end - i,
    {
        r.push(v[i]);
        i = i + 1;
        assert(r@ =~= v@.subrange(start as int, i as int));
    }
    r
}

impl EventBuffer {
    /// The most events the buffer holds.
    pub closed spec fn spec_bound(&self) -> nat {
        self.bound as nat
    }

    /// How many events were dropped for want of room.
    pub closed spec fn spec_dropped(&self) -> u64 {
        self.dropped
    }

    pub closed spec fn wf(&self) -> bool {
        0 < self.bound && self.events@.len() <= self.bound
    }

    pub fn new(bound: usize) -> (r: Self)
        requires
            bound > 0,
        ensures
            r.wf(),
            r@ == Seq::<VirtioInputEvent>::empty(),
            r.spec_bound() == bound,
            r.spec_dropped() == 0,
    {
        EventBuffer { events: Vec::new(), bound, dropped: 0 }
    }

    pub fn len(&self) -> (r: usize)
        ensures
            r == self@.len(),
    {
        self.events.len()
    }

    pub fn bound(&self) -> (r: usize)
        ensures
            r == self.spec_bound(),
    {
        self.bound
    }

    pub fn dropped(&self) -> (r: u64)
        ensures
            r == self.spec_dropped(),
    {
        self.dropped
    }

    /// Replaces the contents by the last `bound` events of `all` and counts the rest.
    fn keep_newest(&mut self, all: Vec<VirtioInputEvent>)
        requires
            0 < old(self).bound,
        ensures
            final(self).wf(),
            final(self)@ == keep_last(all@, old(self).bound as nat),
            final(self).bound == old(self).bound,
            final(self).dropped == saturating_add(
                old(self).dropped,
                overflow(all@, old(self).bound as nat),
            ),
    {
        if all.len() <= self.bound {
            self.events = all;
        } else {
            let excess: usize = all.len() - self.bound;
            self.events = copy_range(&all, excess, all.len());
            let room: u64 = u64::MAX - self.dropped;
            if excess as u64 > room {
                self.dropped = u64::MAX;
            } else {
                self.dropped = self.dropped + excess as u64;
            }
        }
    }

    /// Appends `e`, dropping the oldest event when the buffer is full.
    pub fn push(&mut self, e: VirtioInputEvent)
        requires
            old(self).wf(),
        ensures
            final(self).wf(),
            final(self)@ == keep_last(old(self)@.push(e), old(self).spec_bound()),
            final(self).spec_bound() == old(self).spec_bound(),
            final(self).spec_dropped() == saturating_add(
                old(self).spec_dropped(),
                overflow(old(self)@.push(e), old(self).spec_bound()),
            ),
    {
        let mut all = copy_range(&self.events, 0, self.events.len());
        assert(all@ =~= self.events@);
        all.push(e);
        self.keep_newest(all);
    }

    /// Appends `es` in order as one batch, dropping the oldest events beyond the bound.
    pub fn push_batch(&mut self, es: &Vec<VirtioInputEvent>)
        requires
            old(self).wf(),
        ensures
            final(self).wf(),
            final(self)@ == keep_last(old(self)@ + es@, old(self).spec_bound()),
            final(self).spec_bound() == old(self).spec_bound(),
            final(self).spec_dropped() == saturating_add(
                old(self).spec_dropped(),
                overflow(old(self)@ + es@, old(self).spec_bound()),
            ),
    {
        let mut all = copy_range(&self.events, 0, self.events.len());
        assert(all@ =~= self.events@);
        let mut i: usize = 0;
        while i < es.len()
            invariant
                i <= es@.len(),
                all@ == self.events@ + es@.subrange(0, i as int),
            decreases es@.len() - i,
        {
            all.push(es[i]);
            i = i + 1;
            assert(all@ =~= self.events@ + es@.subrange(0, i as int));
        }
        assert(es@.subrange(0, es@.len() as int) =~= es@);
        self.keep_newest(all);
    }

    /// Puts `es` back in front of the buffered events, in order, as when they
    /// could not be delivered; beyond the bound the oldest are dropped.
    pub fn requeue_front(&mut self, es: &Vec<VirtioInputEvent>)
        requires
            old(self).wf(),
        ensures
            final(self).wf(),
            final(self)@ == keep_last(es@ + old(self)@, old(self).spec_bound()),
            final(self).spec_bound() == old(self).spec_bound(),
            final(self).spec_dropped() == saturating_add(
                old(self).spec_dropped(),
                overflow(es@ + old(self)@, old(self).spec_bound()),
            ),
    {
        let mut all = copy_range(es, 0, es.len());
        assert(all@ =~= es@);
        let mut i: usize = 0;
        while i < self.events.len()
            invariant
                i <= self.events@.len(),
                all@ == es@ + self.events@.subrange(0, i as int),
            decreases self.events@.len() - i,
        {
            all.push(self.events[i]);
            i = i + 1;
            assert(all@ =~= es@ + self.events@.subrange(0, i as int));
        }
        assert(self.events@.subrange(0, self.events@.len() as int) =~= self.events@);
        self.keep_newest(all);
    }

    /// Removes and returns the oldest `max` events (all of them if fewer), in push order.
    pub fn drain(&mut self, max: usize) -> (r: Vec<VirtioInputEvent>)
        requires
            old(self).wf(),
        ensures
            final(self).wf(),
            r@ == old(self)@.take(if max < old(self)@.len() { max as int } else { old(self)@.len() as int }),
            final(self)@ == old(self)@.skip(r@.len() as int),
            final(self).spec_bound() == old(self).spec_bound(),
            final(self).spec_dropped() == old(self).spec_dropped(),
    {
        let n: usize = if max < self.events.len() { max } else { self.events.len() };
        let r = copy_range(&self.events, 0, n);
        self.events = copy_range(&self.events, n, self.events.len());
        r
    }

    /// Discards every buffered event.
    pub fn clear(&mut self)
        requires
            old(self).wf(),
        ensures
            final(self).wf(),
            final(self)@ == Seq::<VirtioInputEvent>::empty(),
            final(self).spec_bound() == old(self).spec_bound(),
            final(self).spec_dropped() == old(self).spec_dropped(),
    {
        self.events = Vec::new();
    }
}

} // verus!
