use vstd::prelude::*;

verus! {

/// Settings consumed by the dispatching stage.
///
/// What the dispatcher does between events is its own affair; these fields
/// are the contractual surface the pipeline needs from its configuration:
/// whether construction yields a usable instance at all, and which event
/// payloads the run loop emits, in order, before its stopping condition is
/// reached.
pub struct DispatcherSettings {
    /// Whether `EventDispatcher::new` yields an instance. A dispatcher whose
    /// required resources are unavailable declines, silently, to construct.
    pub enabled: bool,
    /// Payloads of the events the dispatcher emits, in order. Reaching the
    /// end of this list is the dispatcher's stopping condition.
    pub events: Vec<u64>,
}

impl DispatcherSettings {
    /// The built-in default: a dispatcher that constructs, emits nothing,
    /// and stops at once.
    pub open spec fn is_default(self) -> bool {
        self.enabled && self.events@ == Seq::<u64>::empty()
    }
}

impl Default for DispatcherSettings {
    fn default() -> (d: DispatcherSettings)
        ensures
            d.is_default(),
    {
        let events: Vec<u64> = Vec::new();
        proof {
            assert(events@ =~= Seq::<u64>::empty());
        }
        DispatcherSettings { enabled: true, events }
    }
}

/// Settings consumed by the handling stage.
pub struct HandlerSettings {
    /// Whether `EventHandler::new` yields a handler. A handler whose
    /// configuration is invalid, or whose required resources cannot be
    /// acquired, fails construction with an error.
    pub enabled: bool,
}

impl HandlerSettings {
    /// The built-in default: a handler that constructs and runs.
    pub open spec fn is_default(self) -> bool {
        self.enabled
    }
}

impl Default for HandlerSettings {
    fn default() -> (h: HandlerSettings)
        ensures
            h.is_default(),
    {
        HandlerSettings { enabled: true }
    }
}

/// The configuration aggregate: exactly two independent sub-configurations,
/// one per stage. Built once at process start — by deserialization, or by
/// default construction when the resource cannot be used — then consumed by
/// value to initialize both stages.
pub struct Settings {
    pub event_dispatcher: DispatcherSettings,
    pub event_handler: HandlerSettings,
}

impl Settings {
    /// The built-in default configuration, substituted whenever the
    /// configuration resource is missing or malformed.
    pub open spec fn is_default(self) -> bool {
        self.event_dispatcher.is_default() && self.event_handler.is_default()
    }
}

impl Default for Settings {
    fn default() -> (s: Settings)
        ensures
            s.is_default(),
    {
        Settings {
            event_dispatcher: DispatcherSettings::default(),
            event_handler: HandlerSettings::default(),
        }
    }
}

/// The outcome of reading and deserializing the configuration resource.
/// Opening the resource and decoding its bytes are I/O at the process
/// boundary; whoever performs them reports what happened here, and the
/// fallback policy below decides what the process runs with.
pub enum ConfigRead {
    /// The resource could not be opened.
    Missing,
    /// The resource was opened, but its content did not deserialize into
    /// `Settings` under the strict schema (unknown fields rejected, absent
    /// fields defaulted).
    Malformed,
    /// The resource deserialized cleanly into these settings.
    Parsed(Settings),
}

/// Severity of a reported configuration-load line.
#[derive(Clone, Copy, Debug, PartialEq, Eq, Structural)]
pub enum LogLevel {
    Info,
    Error,
}

/// Which configuration-load outcome a line reports. Wording, destination
/// and coloring are the caller's concern; the policy fixes only which lines
/// appear, at which severity, in which order.
#[derive(Clone, Copy, Debug, PartialEq, Eq, Structural)]
pub enum LogKind {
    /// The named resource was loaded and is in use.
    Loaded,
    /// The named resource could not be found.
    NotFound,
    /// The named resource could not be deserialized.
    Malformed,
    /// The built-in default configuration is in use.
    DefaultsInUse,
}

/// One line the configuration loader reports.
#[derive(Clone, Copy, Debug, PartialEq, Eq, Structural)]
pub struct LogLine {
    pub level: LogLevel,
    pub kind: LogKind,
}

/// Abbreviation for a log line in contracts.
pub open spec fn line(level: LogLevel, kind: LogKind) -> LogLine {
    LogLine { level, kind }
}

/// Exactly the lines the loader reports for each outcome: one informational
/// line for a loaded resource; for a failure, one error line naming it,
/// then one error line saying the defaults are in use.
pub open spec fn loader_logs(read: ConfigRead) -> Seq<LogLine> {
    match read {
        ConfigRead::Parsed(_) => seq![line(LogLevel::Info, LogKind::Loaded)],
        ConfigRead::Missing => seq![
            line(LogLevel::Error, LogKind::NotFound),
            line(LogLevel::Error, LogKind::DefaultsInUse),
        ],
        ConfigRead::Malformed => seq![
            line(LogLevel::Error, LogKind::Malformed),
            line(LogLevel::Error, LogKind::DefaultsInUse),
        ],
    }
}

/// What the loader returns for each outcome: a parsed resource exactly as
/// parsed, anything else replaced by the built-in defaults.
pub open spec fn loader_result_ok(read: ConfigRead, s: Settings) -> bool {
    match read {
        ConfigRead::Parsed(p) => s == p,
        ConfigRead::Missing => s.is_default(),
        ConfigRead::Malformed => s.is_default(),
    }
}

/// The configuration fallback policy. Total: never fails the caller.
///
/// A parsed resource is adopted as is, with one informational line saying
/// which resource is in use. A missing or malformed resource is reported at
/// error severity, followed by a second error line saying that the built-in
/// defaults are in use, and the defaults are returned.
pub fn load_settings(read: ConfigRead) -> (r: (Settings, Vec<LogLine>))
    ensures
        loader_result_ok(read, r.0),
        r.1@ == loader_logs(read),
{
    let mut logs: Vec<LogLine> = Vec::new();
    match read {
        ConfigRead::Parsed(s) => {
            logs.push(LogLine { level: LogLevel::Info, kind: LogKind::Loaded });
            proof {
                assert(logs@ =~= seq![line(LogLevel::Info, LogKind::Loaded)]);
            }
            (s, logs)
        }
        ConfigRead::Missing => {
            logs.push(LogLine { level: LogLevel::Error, kind: LogKind::NotFound });
            logs.push(LogLine { level: LogLevel::Error, kind: LogKind::DefaultsInUse });
            proof {
                assert(logs@ =~= seq![
                    line(LogLevel::Error, LogKind::NotFound),
                    line(LogLevel::Error, LogKind::DefaultsInUse),
                ]);
            }
            (Settings::default(), logs)
        }
        ConfigRead::Malformed => {
            logs.push(LogLine { level: LogLevel::Error, kind: LogKind::Malformed });
            logs.push(LogLine { level: LogLevel::Error, kind: LogKind::DefaultsInUse });
            proof {
                assert(logs@ =~= seq![
                    line(LogLevel::Error, LogKind::Malformed),
                    line(LogLevel::Error, LogKind::DefaultsInUse),
                ]);
            }
            (Settings::default(), logs)
        }
    }
}

} // verus!
