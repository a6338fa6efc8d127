//! Manually fed input: events come out in the order they went in.

use vstd::prelude::*;

use std::collections::VecDeque;

use crate::adapters::windows_sim::replay::{ReplayEvent, ReplayEventView};

verus! {

/// A first-in, first-out queue of events fed by hand.
#[derive(Debug, Clone)]
pub struct ManualInput {
    queue: VecDeque<ReplayEvent>,
}

/// One call on a manual input: feeding an event, or taking the next one.
pub enum ManualOp {
    Feed(ReplayEventView),
    Take,
}

/// What one call does to the queue, and the event it hands out: a feed adds
/// at the back and hands out nothing; a take removes and hands out the front
/// event, or leaves an empty queue as it is and hands out nothing.
pub open spec fn manual_step(q: Seq<ReplayEventView>, op: ManualOp) -> (Seq<ReplayEventView>, Option<ReplayEventView>) {
    match op {
        ManualOp::Feed(e) => (q.push(e), None),
        ManualOp::Take => if q.len() == 0 {
            (q, None)
        } else {
            (q.drop_first(), Some(q[0]))
        },
    }
}

/// The queue after a run of calls, and the events handed out, in order.
pub open spec fn manual_run(q: Seq<ReplayEventView>, ops: Seq<ManualOp>) -> (Seq<ReplayEventView>, Seq<ReplayEventView>)
    decreases ops.len(),
{
    if ops.len() == 0 {
        (q, Seq::empty())
    } else {
        let (queue, taken) = manual_run(q, ops.drop_last());
        let (next, out) = manual_step(queue, ops.last());
        match out {
            Some(e) => (next, taken.push(e)),
            None => (next, taken),
        }
    }
}

/// The events fed during a run of calls, in order.
pub open spec fn manual_fed(ops: Seq<ManualOp>) -> Seq<ReplayEventView>
    decreases ops.len(),
{
    if ops.len() == 0 {
        Seq::empty()
    } else {
        match ops.last() {
            ManualOp::Feed(e) => manual_fed(ops.drop_last()).push(e),
            ManualOp::Take => manual_fed(ops.drop_last()),
        }
    }
}

/// An optional event, taken by its view.
pub open spec fn opt_event_view(r: Option<ReplayEvent>) -> Option<ReplayEventView> {
    match r {
        Some(e) => Some(e@),
        None => None,
    }
}

/// The views of a sequence of events.
pub open spec fn events_view(s: Seq<ReplayEvent>) -> Seq<ReplayEventView> {
    s.map_values(|e: ReplayEvent| e@)
}

impl View for ManualInput {
    type V = Seq<ReplayEventView>;

    closed spec fn view(&self) -> Seq<ReplayEventView> {
        events_view(self.queue@)
    }
}

impl ManualInput {
    /// A queue holding the given events, first one first.
    pub fn new(initial_events: Vec<ReplayEvent>) -> (r: Self)
        ensures
            r@ == events_view(initial_events@),
    {
        let mut queue: VecDeque<ReplayEvent> = VecDeque::new();
        let mut i: usize = 0;
        while i < initial_events.len()
            invariant
                i <= initial_events@.len(),
                events_view(queue@) == events_view(initial_events@.take(i as int)),
            decreases initial_events@.len() - i,
        {
            let ghost before = queue@;
            let e = initial_events[i].duplicate();
            queue.push_back(e);
            assert(queue@ == before.push(e));
            assert(initial_events@.take(i + 1) =~= initial_events@.take(i as int).push(initial_events@[i as int]));
            assert(events_view(queue@) =~= events_view(before).push(e@));
            assert(events_view(queue@) =~= events_view(initial_events@.take(i + 1)));
            i = i + 1;
        }
        assert(initial_events@.take(initial_events@.len() as int) =~= initial_events@);
        ManualInput { queue }
    }

    /// Adds an event at the back of the queue.
    pub fn feed(&mut self, event: ReplayEvent)
        ensures
            final(self)@ == old(self)@.push(event@),
            final(self)@ == manual_step(old(self)@, ManualOp::Feed(event@)).0,
    {
        self.queue.push_back(event);
        assert(events_view(self.queue@) =~= events_view(old(self).queue@).push(event@));
    }

    /// Takes the event at the front of the queue, if any.
    pub fn next_event(&mut self) -> (r: Option<ReplayEvent>)
        ensures
            old(self)@.len() == 0 ==> r is None && final(self)@ == old(self)@,
            old(self)@.len() > 0 ==> (r matches Some(e) && e@ == old(self)@[0]) && final(self)@ == old(self)@.drop_first(),
            (final(self)@, opt_event_view(r)) == manual_step(old(self)@, ManualOp::Take),
    {
        let r = self.queue.pop_front();
        assert(events_view(self.queue@) =~= if old(self).queue@.len() > 0 {
            events_view(old(self).queue@).drop_first()
        } else {
            events_view(old(self).queue@)
        });
        r
    }
}

/// Feeding an event to a queue and taking events out gives the queued events
/// first and the fed event last.
pub proof fn lemma_manual_input_fifo(queued: Seq<ReplayEventView>, fed: ReplayEventView)
    ensures
        queued.push(fed)[queued.len() as int] == fed,
        queued.len() > 0 ==> queued.push(fed)[0] == queued[0] && queued.push(fed).drop_first() == queued.drop_first().push(fed),
{
    if queued.len() > 0 {
        assert(queued.push(fed).drop_first() =~= queued.drop_first().push(fed));
    }
}

/// Over any run of feeds and takes, the events handed out followed by those
/// still queued are the events first queued followed by those fed: events
/// come out in the order they went in, none lost and none repeated.
pub proof fn lemma_manual_input_fifo_run(q: Seq<ReplayEventView>, ops: Seq<ManualOp>)
    ensures
        manual_run(q, ops).1 + manual_run(q, ops).0 == q + manual_fed(ops),
    decreases ops.len(),
{
    if ops.len() > 0 {
        lemma_manual_input_fifo_run(q, ops.drop_last());
        let (queue, taken) = manual_run(q, ops.drop_last());
        match ops.last() {
            ManualOp::Feed(e) => {
                assert(taken + queue.push(e) =~= (taken + queue).push(e));
            },
            ManualOp::Take => {
                if queue.len() > 0 {
                    assert(taken.push(queue[0]) + queue.drop_first() =~= taken + queue);
                }
            },
        }
    }
}

/// Takes only, `n` of them.
pub open spec fn takes(n: nat) -> Seq<ManualOp> {
    Seq::new(n, |i: int| ManualOp::Take)
}

/// Taking at least as many times as there are queued events hands them all
/// out, first one first, and leaves the queue empty; further takes hand out
/// nothing.
pub proof fn lemma_manual_input_drains(q: Seq<ReplayEventView>, n: nat)
    requires
        n >= q.len(),
    ensures
        manual_run(q, takes(n)).1 == q,
        manual_run(q, takes(n)).0.len() == 0,
    decreases n,
{
    if n == q.len() {
        lemma_takes_prefix(q, n);
    } else {
        lemma_manual_input_drains(q, (n - 1) as nat);
        assert(takes(n).drop_last() =~= takes((n - 1) as nat));
    }
}

/// Taking `n` times from a queue of at least `n` events hands out its first
/// `n` events and leaves the rest.
proof fn lemma_takes_prefix(q: Seq<ReplayEventView>, n: nat)
    requires
        n <= q.len(),
    ensures
        manual_run(q, takes(n)).1 == q.take(n as int),
        manual_run(q, takes(n)).0 == q.skip(n as int),
    decreases n,
{
    if n > 0 {
        lemma_takes_prefix(q, (n - 1) as nat);
        assert(takes(n).drop_last() =~= takes((n - 1) as nat));
        assert(takes(n).last() == ManualOp::Take);
        let rest = q.skip(n - 1);
        assert(rest[0] == q[n - 1]);
        assert(q.take(n - 1).push(q[n - 1]) =~= q.take(n as int));
        assert(rest.drop_first() =~= q.skip(n as int));
    } else {
        assert(q.take(0) =~= Seq::<ReplayEventView>::empty());
        assert(q.skip(0) =~= q);
    }
}

} // verus!
