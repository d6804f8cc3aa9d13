//! Common client functionalities.
//!
//! The client cannot call the native engine itself. Each operation that needs the engine is
//! therefore in two parts: the first decides what is asked of the engine, the second takes
//! the engine's answer and decides what the caller gets. The caller makes the call between
//! the two.
use crate::config::RDKafkaLogLevel;
use crate::error::{
    engine_error_code, KafkaError, KafkaResult, RDKafkaError, RDKafkaRespErr, RESP_ERR_FAIL,
};
use crate::handle::{HandleState, NativeHandle};
use crate::logging::LogEvent;
use crate::message::DeliveryResult;
use crate::statistics::Statistics;
use crate::util::{
    bytes_cstr_to_owned, c_str_bytes, c_str_len, nul_free, str_trim, string_from_utf8_lossy,
    trimmed, utf8_lossy, NativeString,
};
use vstd::prelude::*;
use vstd::string::StringSliceAdditionalSpecFns;
use vstd::utf8::{decode_utf8, valid_utf8};

verus! {

/// `logged` is the line that the engine logged at `level`, with the facility `fac` and the
/// message `message`.
pub open spec fn is_engine_line(
    logged: Option<LogEvent>,
    level: RDKafkaLogLevel,
    fac: Seq<char>,
    message: Seq<char>,
) -> bool {
    logged matches Some(LogEvent::Engine { level: l, fac: f, message: m }) && l == level && f@
        == fac && m@ == message
}

/// `logged` is the error `error` of the engine, with the engine's reason `reason`.
pub open spec fn is_engine_error(logged: Option<LogEvent>, error: KafkaError, reason: Seq<char>) -> bool {
    logged matches Some(LogEvent::EngineError { error: e, reason: r }) && e == error && r@
        == reason
}

/// What a context does with a line of the engine unless it knows better: it has the line
/// logged as it came.
pub fn default_log(level: RDKafkaLogLevel, fac: &str, log_message: &str) -> (logged: Option<
    LogEvent,
>)
    ensures
        is_engine_line(logged, level, fac@, log_message@),
{
    Some(LogEvent::Engine { level, fac: fac.to_owned(), message: log_message.to_owned() })
}

/// What a context does with the statistics of the client unless it knows better: it has
/// them logged.
pub fn default_stats(statistics: Statistics) -> (logged: Option<LogEvent>)
    ensures
        logged == Some(LogEvent::Stats(statistics)),
{
    Some(LogEvent::Stats(statistics))
}

/// What a context does with an error of the engine unless it knows better: it has the error
/// logged with the engine's reason.
pub fn default_error(error: KafkaError, reason: &str) -> (logged: Option<LogEvent>)
    ensures
        is_engine_error(logged, error, reason@),
{
    Some(LogEvent::EngineError { error, reason: reason.to_owned() })
}

/// A `Context` is an object that can store user-defined data and on which callbacks can be
/// defined. The engine calls it from its own threads, several at a time, so it must be safe
/// to share between threads.
///
/// Every method has a default, so that a context overrides what it needs and nothing else.
/// A method returns what is left to be logged of what it has received: the caller writes
/// that to the log. The defaults do nothing but return what they are given.
pub trait Context: Send + Sync {
    /// Whether `log` is the one that this trait supplies. A verified implementation with a
    /// `log` of its own says so here.
    open spec fn log_is_default(&self) -> bool {
        true
    }

    /// Whether `stats` is the one that this trait supplies. A verified implementation with
    /// a `stats` of its own says so here.
    open spec fn stats_is_default(&self) -> bool {
        true
    }

    /// Whether `error` is the one that this trait supplies. A verified implementation with
    /// an `error` of its own says so here.
    open spec fn error_is_default(&self) -> bool {
        true
    }

    /// Whether `delivery` is the one that this trait supplies. A verified implementation
    /// with a `delivery` of its own says so here.
    open spec fn delivery_is_default(&self) -> bool {
        true
    }

    /// Receives log lines from the engine. The one supplied here has the line logged as it
    /// came.
    fn log(&self, level: RDKafkaLogLevel, fac: &str, log_message: &str) -> (logged: Option<
        LogEvent,
    >)
        ensures
            self.log_is_default() ==> is_engine_line(logged, level, fac@, log_message@),
    {
        default_log(level, fac, log_message)
    }

    /// Receives the statistics of the client. The one supplied here has them logged.
    fn stats(&self, statistics: Statistics) -> (logged: Option<LogEvent>)
        ensures
            self.stats_is_default() ==> logged == Some(LogEvent::Stats(statistics)),
    {
        default_stats(statistics)
    }

    /// Receives global errors from the engine. The one supplied here has the error logged
    /// with the engine's reason.
    fn error(&self, error: KafkaError, reason: &str) -> (logged: Option<LogEvent>)
        ensures
            self.error_is_default() ==> is_engine_error(logged, error, reason@),
    {
        default_error(error, reason)
    }

    /// Receives the report of the delivery of each message that a producer has sent. The
    /// message in the report lies in the engine's buffer, which the engine frees when this
    /// method returns. The one supplied here does nothing and leaves nothing to log.
    fn delivery(&self, _report: &DeliveryResult<'_>) -> (logged: Option<LogEvent>)
        ensures
            self.delivery_is_default() ==> logged is None,
    {
        None
    }
}

/// An empty context that can be used when no context is needed. It has everything logged
/// that it receives from the engine.
#[derive(Clone, Default)]
pub struct EmptyContext;

impl Context for EmptyContext {
    fn log(&self, level: RDKafkaLogLevel, fac: &str, log_message: &str) -> (logged: Option<
        LogEvent,
    >)
        ensures
            is_engine_line(logged, level, fac@, log_message@),
    {
        default_log(level, fac, log_message)
    }

    fn stats(&self, statistics: Statistics) -> (logged: Option<LogEvent>)
        ensures
            logged == Some(LogEvent::Stats(statistics)),
    {
        default_stats(statistics)
    }

    fn error(&self, error: KafkaError, reason: &str) -> (logged: Option<LogEvent>)
        ensures
            is_engine_error(logged, error, reason@),
    {
        default_error(error, reason)
    }

    fn delivery(&self, _report: &DeliveryResult<'_>) -> (logged: Option<LogEvent>)
        ensures
            logged is None,
    {
        None
    }
}

impl EmptyContext {
    /// An empty context.
    pub fn new() -> (context: EmptyContext) {
        EmptyContext {  }
    }
}

/// The owner of a client of the native engine.
#[derive(Debug, PartialEq, Eq)]
pub struct NativeClient {
    handle: NativeHandle,
}

impl View for NativeClient {
    type V = HandleState;

    closed spec fn view(&self) -> HandleState {
        self.handle@
    }
}

impl NativeClient {
    /// Takes ownership of the engine's client at `ptr`.
    pub fn from_ptr(ptr: usize) -> (client: NativeClient)
        ensures
            client@ == HandleState::fresh(ptr),
    {
        NativeClient { handle: NativeHandle::from_ptr(ptr) }
    }

    /// The address of the engine's client.
    pub fn ptr(&self) -> (ptr: usize)
        ensures
            ptr == self@.ptr,
    {
        self.handle.ptr()
    }

    /// Whether the engine's client has not been destroyed.
    pub fn is_live(&self) -> (live: bool)
        ensures
            live == self@.live,
    {
        self.handle.is_live()
    }

    /// Gives the engine's client up. The first release returns the address that the caller
    /// must hand to the engine's destructor; every later one returns `None`.
    pub fn release(&mut self) -> (destroy: Option<usize>)
        ensures
            destroy == old(self)@.due(),
            final(self)@ == old(self)@.released(),
    {
        self.handle.release()
    }
}

/// The error of an answer of the engine that claims success and holds nothing.
pub open spec fn empty_answer() -> RDKafkaError {
    RDKafkaError { code: RESP_ERR_FAIL }
}

/// What becomes of the thing that the engine has left at `ptr` with the code `ret`, where
/// `failed` makes the error of a failure: a code that reports a failure becomes that
/// error; a success that has left nothing becomes the error of an empty answer; any other
/// success gives the caller the thing to own.
pub open spec fn answered(
    ret: RDKafkaRespErr,
    ptr: usize,
    failed: spec_fn(RDKafkaError) -> KafkaError,
    fetched: KafkaResult<NativeHandle>,
) -> bool {
    if ret.is_error() {
        fetched == Err::<NativeHandle, KafkaError>(failed(ret.error()))
    } else if ptr == 0 {
        fetched == Err::<NativeHandle, KafkaError>(failed(empty_answer()))
    } else {
        fetched matches Ok(owned) && owned@ == HandleState::fresh(ptr)
    }
}

/// What the engine is asked for the metadata of one topic, before the engine has made the
/// topic that its call needs.
#[derive(Debug, PartialEq, Eq)]
pub struct TopicRequest {
    /// The address of the engine's client.
    pub client: usize,
    /// The name of the topic.
    pub name: NativeString,
    /// How long the engine may take, in milliseconds.
    pub timeout_ms: i32,
}

impl TopicRequest {
    /// Takes what the engine's topic constructor returned for the topic of the request, and
    /// the error that the engine reported last. A null address means that the engine has
    /// made no topic: the fetch then fails with that error and the engine's call is not
    /// made. Otherwise the call is ready, and it keeps the topic until the engine has
    /// answered.
    pub fn topic_created(self, topic_ptr: usize, last_error: RDKafkaRespErr) -> (made:
        KafkaResult<MetadataCall>)
        ensures
            topic_ptr == 0 ==> made == Err::<MetadataCall, KafkaError>(
                KafkaError::MetadataFetch(last_error.error()),
            ),
            topic_ptr != 0 ==> (made matches Ok(call) && call.client() == self.client
                && call.only_topic() == topic_ptr && call.timeout_ms() == self.timeout_ms),
    {
        match NativeHandle::from_created(topic_ptr) {
            Some(topic) => Ok(
                MetadataCall {
                    client: self.client,
                    only_topic: Some(topic),
                    timeout_ms: self.timeout_ms,
                },
            ),
            None => Err(KafkaError::MetadataFetch(last_error.error())),
        }
    }
}

/// The engine's call for metadata, ready to be made.
///
/// Where the call is for one topic, it holds the topic that the engine has made for it. The
/// topic lives as long as the call: nothing but [`MetadataCall::complete`], which takes the
/// engine's answer, gives it up.
#[derive(Debug, PartialEq, Eq)]
pub struct MetadataCall {
    client: usize,
    only_topic: Option<NativeHandle>,
    timeout_ms: i32,
}

impl MetadataCall {
    #[verifier::type_invariant]
    spec fn topic_lives(self) -> bool {
        self.only_topic matches Some(topic) ==> topic@.live && topic@.ptr != 0
    }

    /// The address of the engine's client.
    pub closed spec fn spec_client(&self) -> usize {
        self.client
    }

    /// How long the engine may take, in milliseconds.
    pub closed spec fn spec_timeout_ms(&self) -> i32 {
        self.timeout_ms
    }

    /// The address of the engine's topic that the call is for, null where it is for all
    /// topics of the cluster.
    pub closed spec fn spec_only_topic(&self) -> usize {
        match self.only_topic {
            Some(topic) => topic@.ptr,
            None => 0,
        }
    }

    /// The engine's flag for the reach of the call: 0 for the one topic, 1 for all topics
    /// of the cluster.
    pub open spec fn spec_all_topics(&self) -> i32 {
        if self.spec_only_topic() != 0 {
            0
        } else {
            1
        }
    }

    /// The address of the topic that is due for destruction once the engine has answered:
    /// the topic of the call, if it has one.
    pub open spec fn topic_due(&self) -> Option<usize> {
        if self.spec_only_topic() != 0 {
            Some(self.spec_only_topic())
        } else {
            None
        }
    }

    /// The address of the engine's client.
    #[verifier::when_used_as_spec(spec_client)]
    pub fn client(&self) -> (client: usize)
        ensures
            client == self.spec_client(),
    {
        self.client
    }

    /// How long the engine may take, in milliseconds.
    #[verifier::when_used_as_spec(spec_timeout_ms)]
    pub fn timeout_ms(&self) -> (timeout_ms: i32)
        ensures
            timeout_ms == self.spec_timeout_ms(),
    {
        self.timeout_ms
    }

    /// The address of the engine's topic that the call is for, null where it is for all
    /// topics of the cluster.
    #[verifier::when_used_as_spec(spec_only_topic)]
    pub fn only_topic(&self) -> (topic_ptr: usize)
        ensures
            topic_ptr == self.spec_only_topic(),
    {
        proof {
            use_type_invariant(self);
        }
        match &self.only_topic {
            Some(topic) => topic.ptr(),
            None => 0,
        }
    }

    /// The engine's flag for the reach of the call.
    #[verifier::when_used_as_spec(spec_all_topics)]
    pub fn all_topics(&self) -> (flag: i32)
        ensures
            flag == self.spec_all_topics(),
    {
        proof {
            use_type_invariant(self);
        }
        match &self.only_topic {
            Some(_) => 0,
            None => 1,
        }
    }

    /// Takes the engine's answer: the code that its call returned and the address where it
    /// left the metadata. The first part of the result is what the fetch gives: the error
    /// of a code that reports a failure, the error of an empty answer for a success that
    /// has left no metadata, and else the metadata for the caller to own. The second part
    /// is the address of the topic of the call, which the caller hands to the engine's
    /// destructor now, whatever the answer was.
    pub fn complete(self, ret: RDKafkaRespErr, metadata_ptr: usize) -> (done: (
        KafkaResult<NativeHandle>,
        Option<usize>,
    ))
        ensures
            answered(ret, metadata_ptr, |e: RDKafkaError| KafkaError::MetadataFetch(e), done.0),
            done.1 == self.topic_due(),
    {
        proof {
            use_type_invariant(&self);
        }
        let due = match self.only_topic {
            Some(topic) => {
                let mut topic = topic;
                topic.release()
            },
            None => None,
        };
        let fetched = if ret.is_error() {
            Err(KafkaError::MetadataFetch(ret.error()))
        } else {
            match NativeHandle::from_created(metadata_ptr) {
                Some(metadata) => Ok(metadata),
                None => Err(KafkaError::MetadataFetch(RDKafkaError { code: RESP_ERR_FAIL })),
            }
        };
        (fetched, due)
    }
}

/// What the engine is asked when metadata is fetched.
#[derive(Debug, PartialEq, Eq)]
pub enum MetadataQuery {
    /// All topics of the cluster: the engine's call can be made.
    AllTopics(MetadataCall),
    /// One topic: the engine makes the topic first.
    OneTopic(TopicRequest),
}

/// The value that both watermarks hold before the engine has filled them in.
pub const WATERMARK_UNSET: i64 = -1;

/// What the engine is asked when the watermarks of a partition are fetched.
#[derive(Debug, PartialEq, Eq)]
pub struct WatermarkQuery {
    /// The address of the engine's client.
    pub client: usize,
    /// The topic of the partition.
    pub topic: NativeString,
    /// The number of the partition.
    pub partition: i32,
    /// How long the engine may take, in milliseconds.
    pub timeout_ms: i32,
}

impl WatermarkQuery {
    /// Takes the engine's answer: the code that its call returned and the low and high
    /// watermark as the call left them, both of which held [`WATERMARK_UNSET`] before the
    /// call. A code that reports a failure becomes the error of the fetch, whatever the
    /// watermarks hold. A success that has left one of them unset becomes the error of an
    /// empty answer. Any other success gives the watermarks, which are the engine's.
    pub fn complete(self, ret: RDKafkaRespErr, low: i64, high: i64) -> (fetched: KafkaResult<
        (i64, i64),
    >)
        ensures
            ret.is_error() ==> fetched == Err::<(i64, i64), KafkaError>(
                KafkaError::MetadataFetch(ret.error()),
            ),
            !ret.is_error() && (low == WATERMARK_UNSET || high == WATERMARK_UNSET) ==> fetched
                == Err::<(i64, i64), KafkaError>(KafkaError::MetadataFetch(empty_answer())),
            !ret.is_error() && low != WATERMARK_UNSET && high != WATERMARK_UNSET ==> fetched
                == Ok::<(i64, i64), KafkaError>((low, high)),
            fetched is Ok ==> low != WATERMARK_UNSET && high != WATERMARK_UNSET,
    {
        if ret.is_error() {
            return Err(KafkaError::MetadataFetch(ret.error()));
        }
        if low == WATERMARK_UNSET || high == WATERMARK_UNSET {
            return Err(KafkaError::MetadataFetch(RDKafkaError { code: RESP_ERR_FAIL }));
        }
        Ok((low, high))
    }
}

/// What the engine is asked when consumer groups are listed.
#[derive(Debug, PartialEq, Eq)]
pub struct GroupListQuery {
    /// The address of the engine's client.
    pub client: usize,
    /// The group asked about, `None` for all groups.
    pub group: Option<NativeString>,
    /// How long the engine may take, in milliseconds.
    pub timeout_ms: i32,
}

impl GroupListQuery {
    /// Takes the engine's answer: the code that its call returned and the address where it
    /// left the list. A code that reports a failure becomes the error of the fetch, and a
    /// success that has left no list the error of an empty answer; otherwise the caller
    /// owns the list.
    pub fn complete(self, ret: RDKafkaRespErr, group_list_ptr: usize) -> (fetched: KafkaResult<
        NativeHandle,
    >)
        ensures
            answered(ret, group_list_ptr, |e: RDKafkaError| KafkaError::GroupListFetch(e), fetched),
    {
        if ret.is_error() {
            return Err(KafkaError::GroupListFetch(ret.error()));
        }
        match NativeHandle::from_created(group_list_ptr) {
            Some(groups) => Ok(groups),
            None => Err(KafkaError::GroupListFetch(RDKafkaError { code: RESP_ERR_FAIL })),
        }
    }
}

/// Whether the engine can be asked about `name`: a name that is given must hold no zero
/// byte.
pub open spec fn askable(name: Option<&str>) -> bool {
    match name {
        None => true,
        Some(text) => nul_free(text.spec_bytes()),
    }
}

/// `asked` is `name` in the form in which the engine takes it.
pub open spec fn asks(name: Option<&str>, asked: Option<NativeString>) -> bool {
    match name {
        None => asked is None,
        Some(text) => asked matches Some(taken) && taken@ == text.spec_bytes(),
    }
}

/// The error for a name that holds a zero byte: it gives the position of the first one among
/// the bytes of the name.
pub open spec fn refusal(name: &str) -> KafkaError {
    KafkaError::Nul(c_str_len(name.spec_bytes()) as usize)
}

/// Puts an optional name in the form in which the engine takes it.
fn native_name(name: Option<&str>) -> (made: KafkaResult<Option<NativeString>>)
    ensures
        askable(name) ==> (made matches Ok(asked) && asks(name, asked)),
        name matches Some(text) ==> !askable(name) ==> made == Err::<
            Option<NativeString>,
            KafkaError,
        >(refusal(text)),
{
    match name {
        None => Ok(None),
        Some(text) => match NativeString::new(text) {
            Ok(asked) => Ok(Some(asked)),
            Err(e) => Err(e),
        },
    }
}

/// The length of the buffer in which the engine's constructor leaves its reason when it fails.
pub const ERRSTR_LEN: usize = 1024;

/// A low level client of the native engine: the engine's client and the context that the
/// engine's callbacks are handed.
///
/// The context stays in one place for as long as the client lives, so that the engine can
/// hold its address.
pub struct Client<C: Context> {
    native: NativeClient,
    context: Box<C>,
}

impl<C: Context> Client<C> {
    #[verifier::type_invariant]
    spec fn usable(self) -> bool {
        self.native@.live && self.native@.ptr != 0
    }

    /// The address of the engine's client.
    pub closed spec fn spec_native_ptr(&self) -> usize {
        self.native@.ptr
    }

    /// The context of the client.
    pub closed spec fn spec_context(&self) -> &C {
        &*self.context
    }

    /// Makes a client of what the engine's constructor returned: the address `client_ptr`,
    /// null where it failed, and the buffer `errstr` in which it then left its reason.
    ///
    /// The caller has registered the address of `context` and the three callbacks with the
    /// engine before it called the constructor. On failure the context is dropped.
    pub fn new(client_ptr: usize, errstr: &[u8], context: Box<C>) -> (created: KafkaResult<
        Client<C>,
    >)
        ensures
            client_ptr == 0 ==> (created matches Err(KafkaError::ClientCreation(descr)) && descr@
                == utf8_lossy(c_str_bytes(errstr@)) && (valid_utf8(c_str_bytes(errstr@)) ==> descr@
                == decode_utf8(c_str_bytes(errstr@)))),
            client_ptr != 0 ==> (created matches Ok(client) && client.spec_native_ptr()
                == client_ptr && *client.spec_context() == *context),
    {
        if client_ptr == 0 {
            let descr = bytes_cstr_to_owned(errstr);
            return Err(KafkaError::ClientCreation(descr));
        }
        Ok(Client { native: NativeClient::from_ptr(client_ptr), context })
    }

    /// Returns a reference to the owner of the engine's client.
    pub fn native_client(&self) -> (native: &NativeClient)
        ensures
            native@ == HandleState::fresh(self.spec_native_ptr()),
    {
        proof {
            use_type_invariant(self);
        }
        &self.native
    }

    /// Returns the address of the engine's client, which is never null.
    #[verifier::when_used_as_spec(spec_native_ptr)]
    pub fn native_ptr(&self) -> (ptr: usize)
        ensures
            ptr == self.spec_native_ptr(),
            ptr != 0,
    {
        proof {
            use_type_invariant(self);
        }
        self.native.ptr()
    }

    /// Returns a reference to the context.
    #[verifier::when_used_as_spec(spec_context)]
    pub fn context(&self) -> (context: &C)
        ensures
            context == self.spec_context(),
    {
        &*self.context
    }

    /// Decides what the engine is asked for the metadata of `topic`, or of all topics in the
    /// cluster if no topic is given. A topic whose name holds a zero byte is refused. For
    /// all topics the engine's call can be made; for one topic the engine makes the topic
    /// first, which [`TopicRequest::topic_created`] then takes.
    ///
    /// The engine's call blocks until the engine answers or the time is over. It must not
    /// be made from within a callback of the context.
    pub fn fetch_metadata(&self, topic: Option<&str>, timeout_ms: i32) -> (asked: KafkaResult<
        MetadataQuery,
    >)
        ensures
            topic is None ==> (asked matches Ok(MetadataQuery::AllTopics(call)) && call.client()
                == self.native_ptr() && call.only_topic() == 0 && call.timeout_ms()
                == timeout_ms),
            topic matches Some(name) ==> askable(topic) ==> (asked matches Ok(
                MetadataQuery::OneTopic(request),
            ) && request.client == self.native_ptr() && request.name@ == name.spec_bytes()
                && request.timeout_ms == timeout_ms),
            topic matches Some(name) ==> !askable(topic) ==> asked == Err::<
                MetadataQuery,
                KafkaError,
            >(refusal(name)),
    {
        match topic {
            None => Ok(
                MetadataQuery::AllTopics(
                    MetadataCall { client: self.native_ptr(), only_topic: None, timeout_ms },
                ),
            ),
            Some(name) => {
                let name = NativeString::new(name)?;
                Ok(MetadataQuery::OneTopic(TopicRequest { client: self.native_ptr(), name, timeout_ms }))
            },
        }
    }

    /// Decides what the engine is asked for the low and high watermark of a partition. A
    /// topic whose name holds a zero byte is refused.
    ///
    /// The engine's call blocks until the engine answers or the time is over. It must not
    /// be made from within a callback of the context.
    pub fn fetch_watermarks(&self, topic: &str, partition: i32, timeout_ms: i32) -> (asked:
        KafkaResult<WatermarkQuery>)
        ensures
            askable(Some(topic)) ==> (asked matches Ok(query) && query.client == self.native_ptr()
                && query.topic@ == topic.spec_bytes() && query.partition == partition
                && query.timeout_ms == timeout_ms),
            !askable(Some(topic)) ==> asked == Err::<WatermarkQuery, KafkaError>(refusal(topic)),
    {
        let topic = NativeString::new(topic)?;
        Ok(WatermarkQuery { client: self.native_ptr(), topic, partition, timeout_ms })
    }

    /// Decides what the engine is asked for the members of `group`, or of all groups if no
    /// group is given. A group whose name holds a zero byte is refused.
    ///
    /// The engine's call blocks until the engine answers or the time is over. It must not
    /// be made from within a callback of the context.
    pub fn fetch_group_list(&self, group: Option<&str>, timeout_ms: i32) -> (asked: KafkaResult<
        GroupListQuery,
    >)
        ensures
            askable(group) ==> (asked matches Ok(query) && query.client == self.native_ptr()
                && asks(group, query.group) && query.timeout_ms == timeout_ms),
            group matches Some(name) ==> !askable(group) ==> asked == Err::<
                GroupListQuery,
                KafkaError,
            >(refusal(name)),
    {
        let group = native_name(group)?;
        Ok(GroupListQuery { client: self.native_ptr(), group, timeout_ms })
    }

    /// Begins the end of the client. The engine's client has not been destroyed yet, and the
    /// context is still where the engine knows it.
    pub fn shutdown(self) -> (ending: Shutdown<C>)
        ensures
            ending.handle() == HandleState::fresh(self.spec_native_ptr()),
            *ending.context() == *self.spec_context(),
    {
        proof {
            use_type_invariant(&self);
        }
        Shutdown { native: self.native, context: self.context }
    }
}

/// A client that is coming to its end.
///
/// The engine's callbacks may run until the engine's client has been destroyed, and they
/// are handed the context. So the engine's client goes first:
/// [`Shutdown::destroy_client`] tells the caller to destroy it, and only after that does
/// [`Shutdown::into_context`] give the context up.
pub struct Shutdown<C: Context> {
    native: NativeClient,
    context: Box<C>,
}

impl<C: Context> Shutdown<C> {
    /// The state of the engine's client.
    pub closed spec fn handle(&self) -> HandleState {
        self.native@
    }

    /// The context of the client.
    pub closed spec fn context(&self) -> &C {
        &*self.context
    }

    /// Gives the engine's client up. The first call returns the address that the caller must
    /// hand to the engine's destructor, which waits for the callbacks that still run; every
    /// later call returns `None`. The context stays as it is.
    pub fn destroy_client(&mut self) -> (destroy: Option<usize>)
        ensures
            destroy == old(self).handle().due(),
            final(self).handle() == old(self).handle().released(),
            *final(self).context() == *old(self).context(),
    {
        self.native.release()
    }

    /// Gives the context up to be dropped, once the engine's client is gone. While it is
    /// not, the context is kept and the shutdown is returned as it was.
    pub fn into_context(self) -> (freed: Result<Box<C>, Shutdown<C>>)
        ensures
            self.handle().live ==> freed == Err::<Box<C>, Shutdown<C>>(self),
            !self.handle().live ==> (freed matches Ok(context) && *context == *self.context()),
    {
        if self.native.is_live() {
            Err(self)
        } else {
            Ok(self.context)
        }
    }
}

/// `logged` is what the `log` of `context` returns when it is handed `level` and texts that
/// read `fac` and `message`.
pub open spec fn log_returns<C: Context>(
    context: &C,
    level: RDKafkaLogLevel,
    fac: Seq<char>,
    message: Seq<char>,
    logged: Option<LogEvent>,
) -> bool {
    exists|f: &str, m: &str|
        f@ == fac && m@ == message && #[trigger] call_ensures(
            C::log,
            (context, level, f, m),
            logged,
        )
}

/// `logged` is what the `error` of `context` returns when it is handed `error` and a text
/// that reads `reason`.
pub open spec fn error_returns<C: Context>(
    context: &C,
    error: KafkaError,
    reason: Seq<char>,
    logged: Option<LogEvent>,
) -> bool {
    exists|r: &str| r@ == reason && #[trigger] call_ensures(C::error, (context, error, r), logged)
}

/// The error that a context receives for the code `err` of a failure that the engine reports
/// outside any call.
pub open spec fn global_error(err: i32) -> KafkaError {
    KafkaError::Global(RDKafkaError { code: engine_error_code(err).unwrap() })
}

/// The engine's log callback, for a line as the engine hands it over: the level by its
/// number, the facility and the message as bytes. Both texts are read as UTF-8, with the
/// replacement character for what is not, and lose the white space at their ends. The
/// `log` of the context receives them with the level read by
/// [`RDKafkaLogLevel::from_int`], and what it returns is returned for the caller to log.
pub fn native_log_cb<C: Context>(context: &C, level: i32, fac: &[u8], buf: &[u8]) -> (logged:
    Option<LogEvent>)
    ensures
        log_returns(
            context,
            RDKafkaLogLevel::from_int(level),
            trimmed(utf8_lossy(fac@)),
            trimmed(utf8_lossy(buf@)),
            logged,
        ),
{
    let fac = string_from_utf8_lossy(fac);
    let log_message = string_from_utf8_lossy(buf);
    let level = RDKafkaLogLevel::from_int(level);
    let fac = str_trim(fac.as_str());
    let log_message = str_trim(log_message.as_str());
    let logged = context.log(level, fac, log_message);
    assert(call_ensures(C::log, (context, level, fac, log_message), logged));
    logged
}

/// The engine's statistics callback, for statistics that the caller has tried to read.
/// Statistics that were read go to the `stats` of the context, and what it returns is
/// returned for the caller to log. For statistics that were not, the context is left alone
/// and the reader's complaint is returned to be logged: statistics that cannot be read
/// never stop the client. Either way the first part of the result is the 0 that tells the
/// engine that its buffer stays its own.
pub fn native_stats_cb<C: Context>(context: &C, parsed: Result<Statistics, String>) -> (done: (
    i32,
    Option<LogEvent>,
))
    ensures
        done.0 == 0,
        match parsed {
            Ok(statistics) => call_ensures(C::stats, (context, statistics), done.1),
            Err(complaint) => done.1 == Some(LogEvent::StatsParseFailure(complaint)),
        },
{
    let logged = match parsed {
        Ok(statistics) => context.stats(statistics),
        Err(complaint) => Some(LogEvent::StatsParseFailure(complaint)),
    };
    (0, logged)
}

/// The engine's error callback, for a code that the engine's error table knows. The `error`
/// of the context receives the global error that stands for the code, and the engine's
/// reason, read as UTF-8 with the replacement character for what is not and without the
/// white space at its ends. What it returns is returned for the caller to log.
pub fn native_error_cb<C: Context>(context: &C, err: i32, reason: &[u8]) -> (logged: Option<
    LogEvent,
>)
    requires
        engine_error_code(err) is Some,
    ensures
        error_returns(context, global_error(err), trimmed(utf8_lossy(reason@)), logged),
{
    match RDKafkaRespErr::from_code(err) {
        Some(code) => {
            let error = KafkaError::Global(code.error());
            let reason = string_from_utf8_lossy(reason);
            let reason = str_trim(reason.as_str());
            let logged = context.error(error, reason);
            assert(call_ensures(C::error, (context, error, reason), logged));
            logged
        },
        None => None,
    }
}

/// The engine's error callback for any code. Where the engine's error table knows `err`,
/// this is [`native_error_cb`], and its result is returned in `Ok`. Where it does not, the
/// context is left alone and the code comes back in `Err`.
pub fn try_native_error_cb<C: Context>(context: &C, err: i32, reason: &[u8]) -> (done: Result<
    Option<LogEvent>,
    i32,
>)
    ensures
        engine_error_code(err) is Some ==> (done matches Ok(logged) && error_returns(
            context,
            global_error(err),
            trimmed(utf8_lossy(reason@)),
            logged,
        )),
        engine_error_code(err) is None ==> done == Err::<Option<LogEvent>, i32>(err),
{
    match RDKafkaRespErr::from_code(err) {
        Some(_) => Ok(native_error_cb(context, err, reason)),
        None => Err(err),
    }
}

} // verus!
