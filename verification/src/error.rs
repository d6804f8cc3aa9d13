//! Error codes of the native engine and the errors this library returns.
use vstd::prelude::*;

verus! {

/// The response code with which the engine reports success.
pub const RESP_ERR_NO_ERROR: i32 = 0;

/// The response code with which the engine reports that a consumer has reached the end of a
/// partition.
pub const RESP_ERR_PARTITION_EOF: i32 = -191;

/// The response code with which the engine reports a failure that it does not tell apart. The
/// client reports an answer of the engine that claims success and holds nothing under the
/// error of this code.
pub const RESP_ERR_FAIL: i32 = -196;

/// What the engine's error table makes of a response code: the number of the error that the
/// table gives for it, or `None` where the table has no entry for the code.
pub uninterp spec fn engine_error_code(code: i32) -> Option<i32>;

/// Looks a response code up in the engine's error table.
///
/// Trusted: the body hands `code` to `rdkafka_sys::types::RDKafkaRespErr::try_from`, which
/// knows the codes the engine defines, and what comes back to
/// `rdkafka_sys::types::RDKafkaErrorCode::from`, which picks the error that stands for it. The
/// contract gives that result its name, and says what the table shows entry by entry: the
/// error that stands for a code has the number of the code. It claims nothing of which
/// codes are known.
#[verifier::external_body]
fn lookup_engine_error(code: i32) -> (found: Option<i32>)
    ensures
        found == engine_error_code(code),
        found matches Some(number) ==> number == code,
{
    match rdkafka_sys::types::RDKafkaRespErr::try_from(code) {
        Ok(err) => Some(rdkafka_sys::types::RDKafkaErrorCode::from(err) as i32),
        Err(_) => None,
    }
}

/// An error of the native engine, by its number in the engine's error table.
#[derive(Debug, Clone, Copy, PartialEq, Eq, Structural)]
pub struct RDKafkaError {
    pub code: i32,
}

/// A response code that the engine's error table knows.
///
/// Values are made by [`RDKafkaRespErr::from_code`] alone, so every value stands for an entry
/// of the table and [`RDKafkaRespErr::error`] never fails. The error that stands for a code
/// has the number of the code.
#[derive(Debug, Clone, Copy, PartialEq, Eq)]
pub struct RDKafkaRespErr {
    code: i32,
}

impl RDKafkaRespErr {
    #[verifier::type_invariant]
    spec fn known(self) -> bool {
        engine_error_code(self.code) == Some(self.code)
    }

    /// The response code as the engine wrote it.
    pub closed spec fn spec_code(&self) -> i32 {
        self.code
    }

    /// Whether the code reports a failure.
    pub open spec fn spec_is_error(&self) -> bool {
        self.spec_code() != RESP_ERR_NO_ERROR
    }

    /// The error that the engine's table gives for this code.
    pub open spec fn spec_error(&self) -> RDKafkaError {
        RDKafkaError { code: engine_error_code(self.spec_code()).unwrap() }
    }

    /// Accepts `code` if the engine's error table knows it.
    pub fn from_code(code: i32) -> (known: Option<RDKafkaRespErr>)
        ensures
            known is Some <==> engine_error_code(code) is Some,
            known matches Some(err) ==> err.spec_code() == code,
    {
        match lookup_engine_error(code) {
            Some(_) => Some(RDKafkaRespErr { code }),
            None => None,
        }
    }

    /// The response code as the engine wrote it.
    #[verifier::when_used_as_spec(spec_code)]
    pub fn code(&self) -> (code: i32)
        ensures
            code == self.spec_code(),
    {
        self.code
    }

    /// Whether the code reports a failure: every code but [`RESP_ERR_NO_ERROR`] does.
    #[verifier::when_used_as_spec(spec_is_error)]
    pub fn is_error(&self) -> (failed: bool)
        ensures
            failed == self.spec_is_error(),
    {
        self.code != RESP_ERR_NO_ERROR
    }

    /// The error that the engine's table gives for this code.
    #[verifier::when_used_as_spec(spec_error)]
    pub fn error(&self) -> (error: RDKafkaError)
        ensures
            error == self.spec_error(),
            error.code == self.code(),
    {
        proof {
            use_type_invariant(self);
        }
        match lookup_engine_error(self.code) {
            Some(code) => RDKafkaError { code },
            None => vstd::pervasive::unreached(),
        }
    }
}

/// The errors of this library.
#[derive(Debug, Clone, PartialEq, Eq)]
pub enum KafkaError {
    /// The engine could not create the client; holds the engine's own account of why.
    ClientCreation(String),
    /// An error that the engine reported on its own, outside any call.
    Global(RDKafkaError),
    /// The engine failed to list the consumer groups.
    GroupListFetch(RDKafkaError),
    /// The engine handed a consumer a message that carries an error.
    MessageConsumption(RDKafkaError),
    /// The engine could not deliver a produced message.
    MessageProduction(RDKafkaError),
    /// The engine failed to fetch metadata or watermarks.
    MetadataFetch(RDKafkaError),
    /// A name meant for the engine holds a zero byte; holds the position of the first one.
    Nul(usize),
    /// A consumer reached the end of the partition with this number.
    PartitionEOF(i32),
}

/// The result of an operation of this library.
pub type KafkaResult<T> = Result<T, KafkaError>;

} // verus!
