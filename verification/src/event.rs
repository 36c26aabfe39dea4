use vstd::prelude::*;

verus! {

/// An event carried from the dispatcher to the handler.
///
/// What an event means is no concern of the pipeline: nothing here reads the
/// payload. It only travels, in order, from the producing stage to the
/// consuming one.
#[derive(Clone, Copy, Debug, PartialEq, Eq, Structural)]
pub struct Event {
    pub payload: u64,
}

/// The events that carry the given payloads, in the same order.
pub open spec fn events_of(payloads: Seq<u64>) -> Seq<Event> {
    payloads.map_values(|p: u64| Event { payload: p })
}

/// Wraps each payload, in order, in the event that will carry it.
pub fn events_from_payloads(payloads: &Vec<u64>) -> (evs: Vec<Event>)
    ensures
        evs@ == events_of(payloads@),
{
    let mut evs: Vec<Event> = Vec::new();
    let mut i: usize = 0;
    while i < payloads.len()
        invariant
            i <= payloads.len(),
            evs@ == events_of(payloads@.take(i as int)),
        decreases payloads.len() - i,
    {
        evs.push(Event { payload: payloads[i] });
        i = i + 1;
        proof {
            assert(evs@ =~= events_of(payloads@.take(i as int)));
        }
    }
    proof {
        assert(payloads@.take(payloads@.len() as int) =~= payloads@);
    }
    evs
}

} // verus!
