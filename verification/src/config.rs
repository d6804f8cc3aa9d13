//! The part of the client's configuration that the engine's callbacks speak of.
use vstd::prelude::*;

verus! {

/// The log levels of the native engine, from the most severe to the least.
#[derive(Debug, Clone, Copy, PartialEq, Eq, Structural)]
pub enum RDKafkaLogLevel {
    Emerg,
    Alert,
    Critical,
    Error,
    Warning,
    Notice,
    Info,
    Debug,
}

impl RDKafkaLogLevel {
    /// The level that the engine means by `level`: it counts from 0 for `Emerg` to 6 for
    /// `Info`, and every other number is `Debug`.
    pub open spec fn spec_from_int(level: i32) -> RDKafkaLogLevel {
        if level == 0 {
            RDKafkaLogLevel::Emerg
        } else if level == 1 {
            RDKafkaLogLevel::Alert
        } else if level == 2 {
            RDKafkaLogLevel::Critical
        } else if level == 3 {
            RDKafkaLogLevel::Error
        } else if level == 4 {
            RDKafkaLogLevel::Warning
        } else if level == 5 {
            RDKafkaLogLevel::Notice
        } else if level == 6 {
            RDKafkaLogLevel::Info
        } else {
            RDKafkaLogLevel::Debug
        }
    }

    /// The number by which the engine knows this level.
    pub open spec fn spec_to_int(&self) -> i32 {
        match self {
            RDKafkaLogLevel::Emerg => 0,
            RDKafkaLogLevel::Alert => 1,
            RDKafkaLogLevel::Critical => 2,
            RDKafkaLogLevel::Error => 3,
            RDKafkaLogLevel::Warning => 4,
            RDKafkaLogLevel::Notice => 5,
            RDKafkaLogLevel::Info => 6,
            RDKafkaLogLevel::Debug => 7,
        }
    }

    /// Reads a level as the engine numbers it.
    #[verifier::when_used_as_spec(spec_from_int)]
    pub fn from_int(level: i32) -> (read: RDKafkaLogLevel)
        ensures
            read == RDKafkaLogLevel::spec_from_int(level),
    {
        match level {
            0 => RDKafkaLogLevel::Emerg,
            1 => RDKafkaLogLevel::Alert,
            2 => RDKafkaLogLevel::Critical,
            3 => RDKafkaLogLevel::Error,
            4 => RDKafkaLogLevel::Warning,
            5 => RDKafkaLogLevel::Notice,
            6 => RDKafkaLogLevel::Info,
            _ => RDKafkaLogLevel::Debug,
        }
    }

    /// The number by which the engine knows this level.
    #[verifier::when_used_as_spec(spec_to_int)]
    pub fn to_int(&self) -> (level: i32)
        ensures
            level == self.spec_to_int(),
    {
        match self {
            RDKafkaLogLevel::Emerg => 0,
            RDKafkaLogLevel::Alert => 1,
            RDKafkaLogLevel::Critical => 2,
            RDKafkaLogLevel::Error => 3,
            RDKafkaLogLevel::Warning => 4,
            RDKafkaLogLevel::Notice => 5,
            RDKafkaLogLevel::Info => 6,
            RDKafkaLogLevel::Debug => 7,
        }
    }
}

/// Every level is read back from its own number.
pub proof fn lemma_log_level_round_trip(level: RDKafkaLogLevel)
    ensures
        RDKafkaLogLevel::spec_from_int(level.spec_to_int()) == level,
        0 <= level.spec_to_int() <= 7,
{
}

} // verus!
