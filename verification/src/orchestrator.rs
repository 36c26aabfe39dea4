use vstd::prelude::*;

use crate::conduit::Conduit;
use crate::config::load_settings;
use crate::config::loader_logs;
use crate::config::ConfigRead;
use crate::config::LogLine;
use crate::config::Settings;
use crate::dispatcher::dispatcher_accepts;
use crate::event::events_from_payloads;
use crate::event::events_of;
use crate::event::Event;
use crate::handler::handler_accepts;

verus! {

/// The orchestrator's phases, in the order one run passes through them.
#[derive(Clone, Copy, Debug, PartialEq, Eq, Structural)]
pub enum Phase {
    /// Nothing done yet.
    Init,
    /// Configuration loaded — never a failure, since the loader absorbs
    /// every failure into the defaults.
    ConfigLoaded,
    /// Channel created and the worker thread spawned with the receiving
    /// half and the handler's sub-configuration.
    HandlerSpawned,
    /// Dispatcher construction attempted on the calling thread; its run,
    /// if it yielded an instance, in progress.
    DispatcherRunning,
    /// The dispatcher returned, or declined to construct; the sending half
    /// is dropped.
    DispatcherDone,
    /// The worker thread has been joined.
    Joined,
    /// Process exit.
    Terminated,
}

/// The successor of each phase; `Terminated` is final. No phase is ever
/// revisited: there are no retries anywhere in this machine — failure
/// absorption happens inside the configuration loader and inside the two
/// constructors, never here.
pub open spec fn next_phase(p: Phase) -> Phase {
    match p {
        Phase::Init => Phase::ConfigLoaded,
        Phase::ConfigLoaded => Phase::HandlerSpawned,
        Phase::HandlerSpawned => Phase::DispatcherRunning,
        Phase::DispatcherRunning => Phase::DispatcherDone,
        Phase::DispatcherDone => Phase::Joined,
        Phase::Joined => Phase::Terminated,
        Phase::Terminated => Phase::Terminated,
    }
}

/// How many steps a phase is from process exit.
pub open spec fn steps_left(p: Phase) -> nat {
    match p {
        Phase::Init => 6,
        Phase::ConfigLoaded => 5,
        Phase::HandlerSpawned => 4,
        Phase::DispatcherRunning => 3,
        Phase::DispatcherDone => 2,
        Phase::Joined => 1,
        Phase::Terminated => 0,
    }
}

/// The canonical life of one run: every phase once, in order.
pub open spec fn canonical_phases() -> Seq<Phase> {
    seq![
        Phase::Init,
        Phase::ConfigLoaded,
        Phase::HandlerSpawned,
        Phase::DispatcherRunning,
        Phase::DispatcherDone,
        Phase::Joined,
        Phase::Terminated,
    ]
}

/// The orchestration always runs to completion: every step from a phase
/// short of `Terminated` brings process exit strictly closer, `Terminated`
/// stands still, and the canonical trace is exactly the iteration of
/// `next_phase` from `Init`.
pub proof fn lemma_orchestration_terminates(p: Phase)
    ensures
        p != Phase::Terminated ==> steps_left(next_phase(p)) < steps_left(p),
        next_phase(Phase::Terminated) == Phase::Terminated,
        forall|i: int|
            0 <= i < canonical_phases().len() - 1 ==> #[trigger] canonical_phases()[i
                + 1] == next_phase(canonical_phases()[i]),
{
}

/// What one whole run of the pipeline did.
pub struct PipelineReport {
    /// Whether handler construction yielded a handler.
    pub handler_constructed: bool,
    /// Whether dispatcher construction yielded a dispatcher.
    pub dispatcher_constructed: bool,
    /// The events the consumer observed, in order.
    pub delivered: Vec<Event>,
    /// The phases passed through, in order.
    pub phases: Vec<Phase>,
}

/// One run of the orchestration against the conduit model, on a single
/// thread of reasoning: construct both stages from their already-loaded
/// sub-configurations, let the dispatcher emit whatever its configuration
/// holds, drop the sending half, and let the handler drain what arrived.
///
/// The contract pins the hand-off end to end: the consumer observes exactly
/// the configured events, in order, whenever both stages construct, and
/// nothing at all when either declines — a declined handler never drains,
/// a declined dispatcher never emits — while the machine still passes
/// through every phase to termination.
pub fn run_pipeline_model(settings: Settings) -> (r: PipelineReport)
    ensures
        r.handler_constructed == settings.event_handler.enabled,
        r.dispatcher_constructed == settings.event_dispatcher.enabled,
        r.handler_constructed && r.dispatcher_constructed ==> r.delivered@ == events_of(
            settings.event_dispatcher.events@,
        ),
        !(r.handler_constructed && r.dispatcher_constructed) ==> r.delivered@ == Seq::<
            Event,
        >::empty(),
        r.phases@ == canonical_phases(),
{
    let mut phases: Vec<Phase> = Vec::new();
    phases.push(Phase::Init);
    phases.push(Phase::ConfigLoaded);

    let mut conduit = Conduit::new();
    let handler_constructed = handler_accepts(&settings.event_handler);
    phases.push(Phase::HandlerSpawned);

    let dispatcher_constructed = dispatcher_accepts(&settings.event_dispatcher);
    phases.push(Phase::DispatcherRunning);
    if dispatcher_constructed {
        let staged = events_from_payloads(&settings.event_dispatcher.events);
        conduit.send_all(&staged);
    }
    conduit.close();
    phases.push(Phase::DispatcherDone);

    let delivered: Vec<Event> = if handler_constructed {
        conduit.drain()
    } else {
        Vec::new()
    };
    phases.push(Phase::Joined);
    phases.push(Phase::Terminated);

    proof {
        assert(phases@ =~= canonical_phases());
        if handler_constructed && dispatcher_constructed {
            assert(delivered@ =~= events_of(settings.event_dispatcher.events@));
        } else {
            assert(delivered@ =~= Seq::<Event>::empty());
        }
    }
    PipelineReport { handler_constructed, dispatcher_constructed, delivered, phases }
}

/// One whole process on the model, mirroring the life of `main`: resolve
/// what reading the configuration resource produced — reporting it exactly
/// as the fallback policy prescribes — then run the pipeline on whatever
/// settings came of that. A resource that could not be used leaves the
/// process on the defaults: both stages construct and the consumer
/// observes no events, since the default dispatcher stops at once.
pub fn run_process_model(read: ConfigRead) -> (r: (Vec<LogLine>, PipelineReport))
    ensures
        r.0@ == loader_logs(read),
        r.1.phases@ == canonical_phases(),
        read matches ConfigRead::Parsed(s) ==> {
            &&& r.1.handler_constructed == s.event_handler.enabled
            &&& r.1.dispatcher_constructed == s.event_dispatcher.enabled
            &&& s.event_handler.enabled && s.event_dispatcher.enabled ==> r.1.delivered@
                == events_of(s.event_dispatcher.events@)
            &&& !(s.event_handler.enabled && s.event_dispatcher.enabled) ==> r.1.delivered@
                == Seq::<Event>::empty()
        },
        !(read matches ConfigRead::Parsed(_)) ==> {
            &&& r.1.handler_constructed
            &&& r.1.dispatcher_constructed
            &&& r.1.delivered@ == Seq::<Event>::empty()
        },
{
    let ghost read0 = read;
    let (settings, logs) = load_settings(read);
    proof {
        if !(read0 matches ConfigRead::Parsed(_)) {
            assert(events_of(settings.event_dispatcher.events@) =~= Seq::<Event>::empty());
        }
    }
    let report = run_pipeline_model(settings);
    (logs, report)
}

} // verus!
