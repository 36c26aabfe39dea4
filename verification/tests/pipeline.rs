use std::sync::mpsc;

use event_pipeline::conduit::Conduit;
use event_pipeline::conduit::Received;
use event_pipeline::config::load_settings;
use event_pipeline::config::ConfigRead;
use event_pipeline::config::DispatcherSettings;
use event_pipeline::config::HandlerSettings;
use event_pipeline::config::LogKind;
use event_pipeline::config::LogLevel;
use event_pipeline::config::LogLine;
use event_pipeline::config::Settings;
use event_pipeline::dispatcher::dispatcher_main;
use event_pipeline::event::events_from_payloads;
use event_pipeline::event::Event;
use event_pipeline::handler::handler_thread_main;
use event_pipeline::handler::EventHandler;
use event_pipeline::orchestrator::run_pipeline_model;
use event_pipeline::orchestrator::run_process_model;
use event_pipeline::orchestrator::Phase;

fn ev(payload: u64) -> Event {
    Event { payload }
}

fn all_phases() -> Vec<Phase> {
    vec![
        Phase::Init,
        Phase::ConfigLoaded,
        Phase::HandlerSpawned,
        Phase::DispatcherRunning,
        Phase::DispatcherDone,
        Phase::Joined,
        Phase::Terminated,
    ]
}

#[test]
fn loader_adopts_parsed_settings() {
    let parsed = Settings {
        event_dispatcher: DispatcherSettings { enabled: true, events: vec![5, 6] },
        event_handler: HandlerSettings { enabled: false },
    };
    let (settings, logs) = load_settings(ConfigRead::Parsed(parsed));
    assert!(settings.event_dispatcher.enabled);
    assert_eq!(settings.event_dispatcher.events, vec![5, 6]);
    assert!(!settings.event_handler.enabled);
    assert_eq!(logs, vec![LogLine { level: LogLevel::Info, kind: LogKind::Loaded }]);
}

#[test]
fn loader_defaults_on_missing() {
    let (settings, logs) = load_settings(ConfigRead::Missing);
    assert!(settings.event_dispatcher.enabled);
    assert!(settings.event_dispatcher.events.is_empty());
    assert!(settings.event_handler.enabled);
    assert_eq!(
        logs,
        vec![
            LogLine { level: LogLevel::Error, kind: LogKind::NotFound },
            LogLine { level: LogLevel::Error, kind: LogKind::DefaultsInUse },
        ]
    );
}

#[test]
fn loader_defaults_on_malformed() {
    let (settings, logs) = load_settings(ConfigRead::Malformed);
    assert!(settings.event_dispatcher.enabled);
    assert!(settings.event_dispatcher.events.is_empty());
    assert!(settings.event_handler.enabled);
    assert_eq!(
        logs,
        vec![
            LogLine { level: LogLevel::Error, kind: LogKind::Malformed },
            LogLine { level: LogLevel::Error, kind: LogKind::DefaultsInUse },
        ]
    );
}

#[test]
fn default_settings_run_an_empty_pipeline() {
    let settings = Settings::default();
    assert!(settings.event_dispatcher.enabled);
    assert!(settings.event_dispatcher.events.is_empty());
    assert!(settings.event_handler.enabled);
}

#[test]
fn payloads_become_events_in_order() {
    let evs = events_from_payloads(&vec![2, 4, 8]);
    assert_eq!(evs, vec![ev(2), ev(4), ev(8)]);
}

#[test]
fn conduit_delivers_in_order_then_closes() {
    let mut conduit = Conduit::new();
    conduit.send(ev(1));
    conduit.send(ev(2));
    conduit.send(ev(3));
    conduit.close();
    let observed = conduit.drain();
    assert_eq!(observed, vec![ev(1), ev(2), ev(3)]);
    assert_eq!(conduit.receive(), Received::Closed);
}

#[test]
fn conduit_appends_batches_after_earlier_sends() {
    let mut conduit = Conduit::new();
    conduit.send(ev(1));
    conduit.send_all(&vec![ev(2), ev(3)]);
    conduit.close();
    let observed = conduit.drain();
    assert_eq!(observed, vec![ev(1), ev(2), ev(3)]);
}

#[test]
fn conduit_blocked_receive_resolves_on_close() {
    let mut conduit = Conduit::new();
    assert_eq!(conduit.receive(), Received::WouldBlock);
    conduit.close();
    assert_eq!(conduit.receive(), Received::Closed);
}

#[test]
fn conduit_immediate_close_leaves_nothing() {
    let mut conduit = Conduit::new();
    conduit.close();
    let observed = conduit.drain();
    assert!(observed.is_empty());
}

#[test]
fn dispatcher_emits_configured_events() {
    let (tx, rx) = mpsc::channel();
    let emitted = dispatcher_main(
        tx,
        DispatcherSettings { enabled: true, events: vec![10, 20, 30] },
    );
    assert_eq!(emitted, 3);
    assert_eq!(rx.recv(), Ok(ev(10)));
    assert_eq!(rx.recv(), Ok(ev(20)));
    assert_eq!(rx.recv(), Ok(ev(30)));
    assert!(rx.recv().is_err());
}

#[test]
fn declined_dispatcher_emits_nothing_and_closes() {
    let (tx, rx) = mpsc::channel::<Event>();
    let emitted = dispatcher_main(tx, DispatcherSettings { enabled: false, events: vec![9] });
    assert_eq!(emitted, 0);
    assert!(rx.recv().is_err());
}

#[test]
fn handler_processes_whatever_arrives() {
    let (_tx, rx) = mpsc::channel::<Event>();
    let mut handler = EventHandler::new(rx, HandlerSettings { enabled: true }).ok().unwrap();
    handler.process_all(&vec![ev(7), ev(8)]);
    assert_eq!(handler.into_processed(), vec![ev(7), ev(8)]);
}

#[test]
fn failed_handler_construction_skips_the_receive_loop() {
    // The sending half stays alive: had the worker body entered its
    // blocking receive loop, this test would hang instead of returning.
    let (tx, rx) = mpsc::channel::<Event>();
    let outcome = handler_thread_main(rx, HandlerSettings { enabled: false });
    assert!(outcome.is_none());
    drop(tx);
}

#[test]
fn handler_drains_sent_events_in_order() {
    let (tx, rx) = mpsc::channel();
    tx.send(ev(11)).unwrap();
    tx.send(ev(12)).unwrap();
    drop(tx);
    let outcome = handler_thread_main(rx, HandlerSettings { enabled: true });
    assert_eq!(outcome, Some(vec![ev(11), ev(12)]));
}

#[test]
fn handler_sees_immediate_close_as_empty_run() {
    let (tx, rx) = mpsc::channel::<Event>();
    drop(tx);
    let outcome = handler_thread_main(rx, HandlerSettings { enabled: true });
    assert_eq!(outcome, Some(vec![]));
}

#[test]
fn pipeline_model_delivers_everything_in_order() {
    let report = run_pipeline_model(Settings {
        event_dispatcher: DispatcherSettings { enabled: true, events: vec![1, 2, 3] },
        event_handler: HandlerSettings { enabled: true },
    });
    assert!(report.dispatcher_constructed);
    assert!(report.handler_constructed);
    assert_eq!(report.delivered, vec![ev(1), ev(2), ev(3)]);
    assert_eq!(report.phases, all_phases());
}

#[test]
fn pipeline_model_zero_events_terminates_clean() {
    let report = run_pipeline_model(Settings {
        event_dispatcher: DispatcherSettings { enabled: true, events: vec![] },
        event_handler: HandlerSettings { enabled: true },
    });
    assert!(report.delivered.is_empty());
    assert_eq!(report.phases, all_phases());
}

#[test]
fn pipeline_model_survives_declined_handler() {
    let report = run_pipeline_model(Settings {
        event_dispatcher: DispatcherSettings { enabled: true, events: vec![4, 5] },
        event_handler: HandlerSettings { enabled: false },
    });
    assert!(!report.handler_constructed);
    assert!(report.delivered.is_empty());
    assert_eq!(report.phases, all_phases());
}

#[test]
fn pipeline_model_survives_declined_dispatcher() {
    let report = run_pipeline_model(Settings {
        event_dispatcher: DispatcherSettings { enabled: false, events: vec![4, 5] },
        event_handler: HandlerSettings { enabled: true },
    });
    assert!(!report.dispatcher_constructed);
    assert!(report.delivered.is_empty());
    assert_eq!(report.phases, all_phases());
}

#[test]
fn absent_resource_scenario_runs_on_defaults() {
    let (logs, report) = run_process_model(ConfigRead::Missing);
    assert_eq!(
        logs,
        vec![
            LogLine { level: LogLevel::Error, kind: LogKind::NotFound },
            LogLine { level: LogLevel::Error, kind: LogKind::DefaultsInUse },
        ]
    );
    assert!(report.handler_constructed);
    assert!(report.dispatcher_constructed);
    assert!(report.delivered.is_empty());
    assert_eq!(report.phases, all_phases());
}
