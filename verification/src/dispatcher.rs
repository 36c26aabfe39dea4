use vstd::prelude::*;

use std::sync::mpsc::Sender;

use crate::config::DispatcherSettings;
use crate::event::events_from_payloads;
use crate::event::events_of;
use crate::event::Event;
use crate::transport::send_event;

verus! {

/// Whether dispatcher construction yields an instance for these settings —
/// the one decision `EventDispatcher::new` makes before taking ownership of
/// the sending half.
pub fn dispatcher_accepts(settings: &DispatcherSettings) -> (accepted: bool)
    ensures
        accepted == settings.enabled,
{
    settings.enabled
}

/// The producing stage: owns the sending half of the channel and the events
/// it has yet to emit.
pub struct EventDispatcher {
    /// The exclusively owned sending half. Dropped with the dispatcher,
    /// which is what closes the channel.
    tx: Sender<Event>,
    /// Events not yet sent, oldest first.
    pub pending: Vec<Event>,
}

impl EventDispatcher {
    /// The events this dispatcher has yet to emit, oldest first.
    pub closed spec fn staged(self) -> Seq<Event> {
        self.pending@
    }

    /// Constructs the producing stage, or declines. Absence is silent at
    /// this layer: a dispatcher without its required resources is "nothing
    /// to run", not a reportable failure. On declining, the sending half
    /// is dropped at once, which closes the channel.
    pub fn new(tx: Sender<Event>, settings: DispatcherSettings) -> (r: Option<EventDispatcher>)
        ensures
            r is Some <==> settings.enabled,
            r matches Some(d) ==> d.staged() == events_of(settings.events@),
    {
        if dispatcher_accepts(&settings) {
            let pending = events_from_payloads(&settings.events);
            Some(EventDispatcher { tx, pending })
        } else {
            None
        }
    }

    /// The producer's run loop: emits every pending event, in order, through
    /// the owned sending half, then returns — its stopping condition is
    /// reaching the end of the list. A send that no receiving half listens
    /// to any more is lost; the loop goes on regardless, since whether
    /// anything observes an event is the consumer's side of the contract.
    pub fn run(&mut self)
        ensures
            final(self).staged() == Seq::<Event>::empty(),
    {
        while self.pending.len() > 0
            decreases self.pending@.len(),
        {
            let e = self.pending.remove(0);
            let _accepted = send_event(&self.tx, e);
        }
        proof {
            assert(self.pending@ =~= Seq::<Event>::empty());
        }
    }
}

/// The calling thread's half of the orchestration: attempt dispatcher
/// construction and, if it yields an instance, run it to completion; if it
/// declines, proceed as if the run had completed. Either way the sending
/// half is dropped by the time this returns — the authoritative signal that
/// no further events will arrive. Returns how many events were handed to
/// the sending half.
pub fn dispatcher_main(tx: Sender<Event>, settings: DispatcherSettings) -> (emitted: usize)
    ensures
        settings.enabled ==> emitted == settings.events@.len(),
        !settings.enabled ==> emitted == 0,
{
    match EventDispatcher::new(tx, settings) {
        Some(mut dispatcher) => {
            let emitted: usize = dispatcher.pending.len();
            dispatcher.run();
            emitted
        }
        None => 0,
    }
}

} // verus!
