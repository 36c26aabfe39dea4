use vstd::prelude::*;

use std::sync::mpsc::Receiver;

use crate::config::HandlerSettings;
use crate::event::Event;
use crate::transport::recv_until_closed;
use crate::transport::request_max_priority;

verus! {

/// Why handler construction failed. The concrete causes (an invalid
/// sub-configuration, an unacquirable resource) are collaborator concerns;
/// this layer only signals that there is nothing to run.
#[derive(Clone, Copy, Debug, PartialEq, Eq, Structural)]
pub enum ConstructionError {
    /// The sub-configuration declares the handler unusable.
    SettingsRejected,
}

/// A terminal failure of the handler's run loop. Internal processing here
/// records events and cannot fail, so `run` never produces a value of this
/// type; the signature keeps the place where a fallible processor would
/// surface one.
#[derive(Clone, Copy, Debug, PartialEq, Eq, Structural)]
pub enum RunError {
    /// Per-event processing failed and was not recovered.
    ProcessingFailed,
}

/// Whether handler construction yields a handler for these settings — the
/// one decision `EventHandler::new` makes before taking ownership of the
/// receiving half.
pub fn handler_accepts(settings: &HandlerSettings) -> (accepted: bool)
    ensures
        accepted == settings.enabled,
{
    settings.enabled
}

/// The consuming stage: owns the receiving half of the channel and a record
/// of every event processed so far.
pub struct EventHandler {
    /// The exclusively owned receiving half.
    rx: Receiver<Event>,
    /// Events processed so far, in order — the concrete stand-in for
    /// handler-internal processing, which is opaque to the pipeline.
    seen: Vec<Event>,
}

impl EventHandler {
    /// The events this handler has processed so far, oldest first.
    pub closed spec fn processed(self) -> Seq<Event> {
        self.seen@
    }

    /// Gives up the handler for the record of what it processed.
    pub fn into_processed(self) -> (v: Vec<Event>)
        ensures
            v@ == self.processed(),
    {
        self.seen
    }
    /// Constructs the consuming stage, or fails. On failure the receiving
    /// half is dropped along with the error: events still sent are lost,
    /// and the worker has nothing to run.
    pub fn new(rx: Receiver<Event>, settings: HandlerSettings) -> (r: Result<
        EventHandler,
        ConstructionError,
    >)
        ensures
            r is Ok <==> settings.enabled,
            r matches Ok(h) ==> h.processed() == Seq::<Event>::empty(),
    {
        if handler_accepts(&settings) {
            let seen: Vec<Event> = Vec::new();
            proof {
                assert(seen@ =~= Seq::<Event>::empty());
            }
            Ok(EventHandler { rx, seen })
        } else {
            Err(ConstructionError::SettingsRejected)
        }
    }

    /// Dispatches one event to internal processing: it is recorded after
    /// everything processed before it.
    pub fn process_event(&mut self, e: Event)
        ensures
            final(self).processed() == old(self).processed().push(e),
    {
        self.seen.push(e);
    }

    /// Dispatches each of `arrived`, in order, to internal processing.
    /// Verified for every value of `arrived`: whatever the channel yielded,
    /// the handler processes exactly that, in that order, after everything
    /// it processed before.
    pub fn process_all(&mut self, arrived: &Vec<Event>)
        ensures
            final(self).processed() == old(self).processed() + arrived@,
    {
        let mut i: usize = 0;
        while i < arrived.len()
            invariant
                i <= arrived.len(),
                self.seen@ == old(self).seen@ + arrived@.take(i as int),
            decreases arrived.len() - i,
        {
            self.process_event(arrived[i]);
            i = i + 1;
            proof {
                assert(self.seen@ =~= old(self).seen@ + arrived@.take(i as int));
            }
        }
        proof {
            assert(arrived@.take(arrived@.len() as int) =~= arrived@);
        }
    }

    /// The run loop: blocking receives until the channel reports
    /// closed-and-empty, every received event dispatched, in arrival order,
    /// to internal processing; then the loop ends normally. Recording
    /// cannot fail, so the result is always success.
    pub fn run(&mut self) -> (r: Result<(), RunError>)
        ensures
            r is Ok,
            old(self).processed().is_prefix_of(final(self).processed()),
    {
        let arrived = recv_until_closed(&self.rx);
        self.process_all(&arrived);
        proof {
            assert(old(self).seen@ =~= self.seen@.subrange(0, old(self).seen@.len() as int));
        }
        Ok(())
    }
}

/// The worker thread's whole body: request the highest available scheduling
/// priority (best-effort — a denial is ignored and the thread proceeds at
/// default priority), attempt handler construction, and enter the receive
/// loop only if construction yielded a handler. On construction failure the
/// thread body returns at once, without ever touching the receive loop, so
/// a join on the thread still completes. Returns the events the handler
/// processed, in order, or nothing when construction failed.
pub fn handler_thread_main(rx: Receiver<Event>, settings: HandlerSettings) -> (r: Option<
    Vec<Event>,
>)
    ensures
        r is Some <==> settings.enabled,
{
    let _granted = request_max_priority();
    match EventHandler::new(rx, settings) {
        Ok(mut handler) => {
            let _outcome = handler.run();
            Some(handler.seen)
        }
        Err(_) => None,
    }
}

} // verus!
