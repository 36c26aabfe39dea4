use vstd::prelude::*;

use crate::event::Event;

verus! {

/// The channel as its contract sees it: the events sent and not yet
/// received, oldest first, and whether the sending half has been dropped.
///
/// This is the sequential model of the hand-off between the two stages —
/// ordered, single-producer/single-consumer, unbounded, with closure of the
/// sending half as the sole termination signal. The worker thread's real
/// transport lives behind the trusted items in `transport`; this type states
/// what that transport is relied upon to do, and the laws below are proved
/// of it.
pub struct Conduit {
    /// Events sent and not yet received, oldest first.
    pub pending: Vec<Event>,
    /// Whether the sending half has been dropped. Once closed, nothing can
    /// be sent again.
    pub closed: bool,
}

/// What one receive observes: an event, or word that the conduit is closed
/// and drained, or nothing yet — the case in which a blocking receiver
/// would suspend until the producer acts.
#[derive(Clone, Copy, Debug, PartialEq, Eq, Structural)]
pub enum Received {
    /// The oldest pending event, removed from the conduit.
    Delivered(Event),
    /// Closed and drained: no event will ever arrive again.
    Closed,
    /// Open but empty: a blocking receiver would wait here.
    WouldBlock,
}

/// The events pending after a producer sends each element of `evs`, in
/// order, into a conduit already holding `pending`.
pub open spec fn after_sends(pending: Seq<Event>, evs: Seq<Event>) -> Seq<Event>
    decreases evs.len(),
{
    if evs.len() == 0 {
        pending
    } else {
        after_sends(pending.push(evs[0]), evs.skip(1))
    }
}

/// Sending is appending: a producer that sends `evs` in order leaves the
/// conduit holding what it held before, followed by `evs`.
pub proof fn lemma_after_sends_appends(pending: Seq<Event>, evs: Seq<Event>)
    ensures
        after_sends(pending, evs) == pending + evs,
    decreases evs.len(),
{
    if evs.len() == 0 {
        assert(after_sends(pending, evs) =~= pending + evs);
    } else {
        lemma_after_sends_appends(pending.push(evs[0]), evs.skip(1));
        assert(pending.push(evs[0]) + evs.skip(1) =~= pending + evs);
    }
}

/// The FIFO hand-off law: for any sequence of events sent by a producer
/// into a fresh conduit before closing it, a consumer draining the matching
/// receiver observes exactly those events, in the same order — `drain`
/// returns the pending sequence and terminates, so observing closure takes
/// no unbounded wait once the sender is gone.
pub proof fn lemma_fifo_hand_off(evs: Seq<Event>)
    ensures
        after_sends(Seq::<Event>::empty(), evs) == evs,
{
    lemma_after_sends_appends(Seq::<Event>::empty(), evs);
    assert(Seq::<Event>::empty() + evs =~= evs);
}

impl Conduit {
    /// A fresh conduit: nothing pending, sender alive.
    pub fn new() -> (c: Conduit)
        ensures
            c.pending@ == Seq::<Event>::empty(),
            !c.closed,
    {
        let pending: Vec<Event> = Vec::new();
        proof {
            assert(pending@ =~= Seq::<Event>::empty());
        }
        Conduit { pending, closed: false }
    }

    /// The producer sends one event: it is appended after everything already
    /// pending. Ownership of the event transfers here; the producer keeps
    /// nothing.
    pub fn send(&mut self, e: Event)
        requires
            !old(self).closed,
        ensures
            final(self).pending@ == old(self).pending@.push(e),
            !final(self).closed,
    {
        self.pending.push(e);
    }

    /// The producer sends every element of `evs`, in order, as its run loop
    /// does before reaching its stopping condition.
    pub fn send_all(&mut self, evs: &Vec<Event>)
        requires
            !old(self).closed,
        ensures
            final(self).pending@ == after_sends(old(self).pending@, evs@),
            final(self).pending@ == old(self).pending@ + evs@,
            !final(self).closed,
    {
        proof {
            lemma_after_sends_appends(old(self).pending@, evs@);
        }
        let mut i: usize = 0;
        while i < evs.len()
            invariant
                i <= evs.len(),
                self.pending@ == old(self).pending@ + evs@.take(i as int),
                !self.closed,
            decreases evs.len() - i,
        {
            self.send(evs[i]);
            i = i + 1;
            proof {
                assert(self.pending@ =~= old(self).pending@ + evs@.take(i as int));
            }
        }
        proof {
            assert(evs@.take(evs@.len() as int) =~= evs@);
        }
    }

    /// The producer's half is dropped: the sole termination signal. What is
    /// already pending stays deliverable.
    pub fn close(&mut self)
        ensures
            final(self).pending@ == old(self).pending@,
            final(self).closed,
    {
        self.closed = true;
    }

    /// One receive. An event is delivered whenever one is pending; an empty,
    /// closed conduit — the sender dropped, even if that happened while the
    /// receiver was waiting — resolves to `Closed` rather than anything
    /// that would wait forever; an empty, open conduit is where a blocking
    /// receiver suspends.
    pub fn receive(&mut self) -> (r: Received)
        ensures
            old(self).pending@.len() > 0 ==> {
                &&& r == Received::Delivered(old(self).pending@[0])
                &&& final(self).pending@ == old(self).pending@.skip(1)
                &&& final(self).closed == old(self).closed
            },
            old(self).pending@.len() == 0 && old(self).closed ==> {
                &&& r == Received::Closed
                &&& *final(self) == *old(self)
            },
            old(self).pending@.len() == 0 && !old(self).closed ==> {
                &&& r == Received::WouldBlock
                &&& *final(self) == *old(self)
            },
    {
        if self.pending.len() > 0 {
            let e = self.pending.remove(0);
            proof {
                assert(self.pending@ =~= old(self).pending@.skip(1));
            }
            Received::Delivered(e)
        } else if self.closed {
            Received::Closed
        } else {
            Received::WouldBlock
        }
    }

    /// The consumer's run loop once the sender is gone: receive until the
    /// conduit reports closed-and-drained. Returns every event it observed,
    /// in order. The `decreases` clause is the termination argument — with
    /// the sender dropped, the loop cannot block forever.
    pub fn drain(&mut self) -> (observed: Vec<Event>)
        requires
            old(self).closed,
        ensures
            observed@ == old(self).pending@,
            final(self).pending@ == Seq::<Event>::empty(),
            final(self).closed,
    {
        let mut observed: Vec<Event> = Vec::new();
        while self.pending.len() > 0
            invariant
                self.closed,
                observed@ + self.pending@ == old(self).pending@,
            decreases self.pending@.len(),
        {
            if let Received::Delivered(e) = self.receive() {
                observed.push(e);
            }
            proof {
                assert(observed@ + self.pending@ =~= old(self).pending@);
            }
        }
        proof {
            assert(observed@ =~= old(self).pending@);
            assert(self.pending@ =~= Seq::<Event>::empty());
        }
        observed
    }
}

} // verus!
