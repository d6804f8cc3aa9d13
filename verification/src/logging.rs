//! What the client has to say to the application's log, as values that the caller writes out.
use crate::config::RDKafkaLogLevel;
use crate::error::KafkaError;
use crate::statistics::Statistics;
use vstd::prelude::*;
use vstd::string::StringExecFns;

verus! {

/// How much an event matters to the reader of a log.
#[derive(Debug, Clone, Copy, PartialEq, Eq, Structural)]
pub enum LogLevel {
    Error,
    Warn,
    Info,
    Debug,
}

/// The level at which a line of the engine is logged: the engine's four gravest levels are
/// all errors here, and its notices are information.
pub open spec fn spec_severity(level: RDKafkaLogLevel) -> LogLevel {
    match level {
        RDKafkaLogLevel::Emerg => LogLevel::Error,
        RDKafkaLogLevel::Alert => LogLevel::Error,
        RDKafkaLogLevel::Critical => LogLevel::Error,
        RDKafkaLogLevel::Error => LogLevel::Error,
        RDKafkaLogLevel::Warning => LogLevel::Warn,
        RDKafkaLogLevel::Notice => LogLevel::Info,
        RDKafkaLogLevel::Info => LogLevel::Info,
        RDKafkaLogLevel::Debug => LogLevel::Debug,
    }
}

/// The level at which a line of the engine is logged.
#[verifier::when_used_as_spec(spec_severity)]
pub fn severity(level: RDKafkaLogLevel) -> (logged_at: LogLevel)
    ensures
        logged_at == spec_severity(level),
{
    match level {
        RDKafkaLogLevel::Emerg => LogLevel::Error,
        RDKafkaLogLevel::Alert => LogLevel::Error,
        RDKafkaLogLevel::Critical => LogLevel::Error,
        RDKafkaLogLevel::Error => LogLevel::Error,
        RDKafkaLogLevel::Warning => LogLevel::Warn,
        RDKafkaLogLevel::Notice => LogLevel::Info,
        RDKafkaLogLevel::Info => LogLevel::Info,
        RDKafkaLogLevel::Debug => LogLevel::Debug,
    }
}

/// The text of a line of the engine: the engine's name, the facility and the message.
pub open spec fn spec_engine_line(fac: Seq<char>, message: Seq<char>) -> Seq<char> {
    "librdkafka: "@ + fac + " "@ + message
}

/// The text of a line of the engine.
pub fn render_engine_line(fac: &str, message: &str) -> (line: String)
    ensures
        line@ == spec_engine_line(fac@, message@),
{
    let mut line = String::from_str("librdkafka: ");
    line.append(fac);
    line.append(" ");
    line.append(message);
    line
}

/// One thing to be logged.
#[derive(Debug, Clone, PartialEq, Eq)]
pub enum LogEvent {
    /// A line that the engine logged, with the engine's level and facility.
    Engine { level: RDKafkaLogLevel, fac: String, message: String },
    /// Statistics that no context took.
    Stats(Statistics),
    /// An error of the engine that no context took, with the engine's reason.
    EngineError { error: KafkaError, reason: String },
    /// Statistics that could not be read, with the reader's complaint.
    StatsParseFailure(String),
}

impl LogEvent {
    /// The level at which the event is logged.
    pub open spec fn spec_level(&self) -> LogLevel {
        match self {
            LogEvent::Engine { level, .. } => spec_severity(*level),
            LogEvent::Stats(_) => LogLevel::Info,
            LogEvent::EngineError { .. } => LogLevel::Error,
            LogEvent::StatsParseFailure(_) => LogLevel::Error,
        }
    }

    /// Whether the event is logged under the engine's name rather than the client's.
    pub open spec fn spec_from_engine(&self) -> bool {
        self is Engine
    }

    /// The level at which the event is logged.
    #[verifier::when_used_as_spec(spec_level)]
    pub fn level(&self) -> (logged_at: LogLevel)
        ensures
            logged_at == self.spec_level(),
    {
        match self {
            LogEvent::Engine { level, .. } => severity(*level),
            LogEvent::Stats(_) => LogLevel::Info,
            LogEvent::EngineError { .. } => LogLevel::Error,
            LogEvent::StatsParseFailure(_) => LogLevel::Error,
        }
    }

    /// Whether the event is logged under the engine's name rather than the client's.
    #[verifier::when_used_as_spec(spec_from_engine)]
    pub fn from_engine(&self) -> (engine: bool)
        ensures
            engine == self.spec_from_engine(),
    {
        match self {
            LogEvent::Engine { .. } => true,
            _ => false,
        }
    }
}

} // verus!
