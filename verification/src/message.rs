//! Store and manipulate Kafka messages.
use crate::error::{KafkaError, KafkaResult, RDKafkaRespErr, RESP_ERR_PARTITION_EOF};
use crate::util::{current_time, is_epoch_millis_of, millis_to_epoch, now_returned};
use std::str::Utf8Error;
use std::time::SystemTime;
use vstd::prelude::*;
use vstd::string::StringSliceAdditionalSpecFns;
use vstd::utf8::{decode_utf8, encode_utf8, encode_utf8_decode_utf8, valid_utf8};

verus! {

/// The kinds of timestamp that the engine knows.
#[derive(Debug, Clone, Copy, PartialEq, Eq, Structural)]
pub enum TimestampType {
    NotAvailable,
    CreateTime,
    LogAppendTime,
}

/// Timestamp of a message.
#[derive(Debug, PartialEq, Eq, Clone, Copy, Structural)]
pub enum Timestamp {
    NotAvailable,
    CreateTime(i64),
    LogAppendTime(i64),
}

impl Timestamp {
    /// The milliseconds since the epoch that the timestamp stands for. A timestamp that is
    /// not available stands for none, and neither does one of negative milliseconds.
    pub open spec fn millis(self) -> Option<i64> {
        match self {
            Timestamp::NotAvailable => None,
            Timestamp::CreateTime(t) | Timestamp::LogAppendTime(t) => if t < 0 {
                None
            } else {
                Some(t)
            },
        }
    }

    /// The timestamp that the engine means by a kind and a number of milliseconds: -1
    /// milliseconds are no timestamp, whatever the kind.
    pub open spec fn spec_from_native(kind: TimestampType, millis: i64) -> Timestamp {
        if millis == -1 {
            Timestamp::NotAvailable
        } else {
            match kind {
                TimestampType::NotAvailable => Timestamp::NotAvailable,
                TimestampType::CreateTime => Timestamp::CreateTime(millis),
                TimestampType::LogAppendTime => Timestamp::LogAppendTime(millis),
            }
        }
    }

    /// Convert the timestamp to milliseconds since epoch. There are none for a timestamp
    /// that is not available or that holds negative milliseconds.
    pub fn to_millis(&self) -> (millis: Option<i64>)
        ensures
            millis == self.millis(),
    {
        match *self {
            Timestamp::NotAvailable => None,
            Timestamp::CreateTime(t) | Timestamp::LogAppendTime(t) => if t < 0 {
                None
            } else {
                Some(t)
            },
        }
    }

    /// Reads a timestamp as the engine reports it, by its kind and its milliseconds.
    #[verifier::when_used_as_spec(spec_from_native)]
    pub fn from_native(kind: TimestampType, millis: i64) -> (timestamp: Timestamp)
        ensures
            timestamp == Timestamp::spec_from_native(kind, millis),
    {
        if millis == -1 {
            Timestamp::NotAvailable
        } else {
            match kind {
                TimestampType::NotAvailable => Timestamp::NotAvailable,
                TimestampType::CreateTime => Timestamp::CreateTime(millis),
                TimestampType::LogAppendTime => Timestamp::LogAppendTime(millis),
            }
        }
    }

    /// `self` is the time of creation that stands for `system_time`: its milliseconds are
    /// those of `system_time` since the Unix epoch.
    pub open spec fn is_create_time_of(self, system_time: SystemTime) -> bool {
        self matches Timestamp::CreateTime(millis) && is_epoch_millis_of(system_time, millis)
    }

    /// Creates a new `Timestamp::CreateTime` representing the provided system time: zero for
    /// a time before the epoch, never negative.
    pub fn from_system_time(system_time: SystemTime) -> (timestamp: Timestamp)
        ensures
            timestamp.is_create_time_of(system_time),
            timestamp matches Timestamp::CreateTime(millis) && millis >= 0,
    {
        Timestamp::CreateTime(millis_to_epoch(system_time))
    }

    /// Creates a new `Timestamp::CreateTime` representing the current time: the time that
    /// the system's clock gives when it is asked.
    pub fn now() -> (timestamp: Timestamp)
        ensures
            exists|time: SystemTime| #[trigger]
                now_returned(time) && timestamp.is_create_time_of(time),
            timestamp matches Timestamp::CreateTime(millis) && millis >= 0,
    {
        Timestamp::from_system_time(current_time())
    }
}

impl From<i64> for Timestamp {
    fn from(system_time: i64) -> (timestamp: Timestamp) {
        Timestamp::CreateTime(system_time)
    }
}

impl vstd::std_specs::convert::FromSpecImpl<i64> for Timestamp {
    open spec fn obeys_from_spec() -> bool {
        true
    }

    open spec fn from_spec(system_time: i64) -> Timestamp {
        Timestamp::CreateTime(system_time)
    }
}

/// What a message holds.
pub struct MessageContent {
    pub key: Option<Seq<u8>>,
    pub payload: Option<Seq<u8>>,
    pub topic: Seq<char>,
    pub timestamp: Timestamp,
    pub partition: i32,
    pub offset: i64,
}

/// The bytes of an optional slice.
pub open spec fn slice_view(bytes: Option<&[u8]>) -> Option<Seq<u8>> {
    match bytes {
        Some(b) => Some(b@),
        None => None,
    }
}

/// The bytes of an optional vector.
pub open spec fn vec_view(bytes: Option<Vec<u8>>) -> Option<Seq<u8>> {
    match bytes {
        Some(b) => Some(b@),
        None => None,
    }
}

/// What a view of a field says of the field: there is no view of a field that is absent,
/// and the view of one that is present is what `P` reads in its bytes.
pub open spec fn views<P: ?Sized + FromBytes>(
    field: Option<Seq<u8>>,
    view: Option<Result<&P, P::Error>>,
) -> bool {
    match field {
        None => view is None,
        Some(bytes) => view matches Some(read) && P::reads(bytes, read),
    }
}

/// The `Message` trait provides access to the fields of a generic Kafka message.
pub trait Message {
    /// What the message holds. An implementation that is verified says it here; for any
    /// other nothing is known of it.
    open spec fn content(&self) -> MessageContent {
        arbitrary()
    }

    /// Returns the key of the message, or None if there is no key.
    fn key(&self) -> (key: Option<&[u8]>)
        ensures
            slice_view(key) == self.content().key,
    ;

    /// Returns the payload of the message, or None if there is no payload.
    fn payload(&self) -> (payload: Option<&[u8]>)
        ensures
            slice_view(payload) == self.content().payload,
    ;

    /// Whether the message names its topic, and in text. It always does, by the rules of the
    /// protocol; a message that lies in the engine's memory is taken as it is and says here
    /// whether it keeps to them.
    open spec fn topic_is_text(&self) -> bool {
        true
    }

    /// Returns the source topic of the message, whose name must be text.
    fn topic(&self) -> (topic: &str)
        requires
            self.topic_is_text(),
        ensures
            topic@ == self.content().topic,
    ;

    /// Returns the partition number where the message is stored.
    fn partition(&self) -> (partition: i32)
        ensures
            partition == self.content().partition,
    ;

    /// Returns the offset of the message.
    fn offset(&self) -> (offset: i64)
        ensures
            offset == self.content().offset,
    ;

    /// Returns the message timestamp for a consumed message if available.
    fn timestamp(&self) -> (timestamp: Timestamp)
        ensures
            timestamp == self.content().timestamp,
    ;

    /// Converts the raw bytes of the payload to a reference of the specified type, that points
    /// to the same data inside the message and without performing any memory allocation
    fn payload_view<P: ?Sized + FromBytes>(&self) -> (view: Option<Result<&P, P::Error>>)
        ensures
            views::<P>(self.content().payload, view),
    {
        match self.payload() {
            Some(bytes) => Some(P::from_bytes(bytes)),
            None => None,
        }
    }

    /// Converts the raw bytes of the key to a reference of the specified type, that points to
    /// the same data inside the message and without performing any memory allocation
    fn key_view<K: ?Sized + FromBytes>(&self) -> (view: Option<Result<&K, K::Error>>)
        ensures
            views::<K>(self.content().key, view),
    {
        match self.key() {
            Some(bytes) => Some(K::from_bytes(bytes)),
            None => None,
        }
    }
}

/// A message as the engine holds it: the fields of the engine's record, with the buffers
/// that the record points to as slices of the engine's memory.
#[derive(Debug, Clone, Copy)]
pub struct NativeMessage<'a> {
    /// The address of the engine's record.
    pub ptr: usize,
    /// The address of the engine's topic.
    pub topic_ptr: usize,
    /// The response code that the record carries.
    pub err: RDKafkaRespErr,
    /// The bytes of the name of the topic, as the engine holds them; `None` where the
    /// record names no topic.
    pub topic: Option<&'a [u8]>,
    /// The number of the partition.
    pub partition: i32,
    /// The offset of the message in the partition.
    pub offset: i64,
    /// The key, `None` where the record's pointer to it is null.
    pub key: Option<&'a [u8]>,
    /// The payload, `None` where the record's pointer to it is null.
    pub payload: Option<&'a [u8]>,
    /// The kind of the timestamp that the engine reports for the record.
    pub timestamp_type: TimestampType,
    /// The milliseconds of that timestamp, -1 where the engine has none.
    pub timestamp: i64,
}

impl<'a> NativeMessage<'a> {
    /// Whether the record names a topic, and in text.
    pub open spec fn names_topic(&self) -> bool {
        self.topic matches Some(name) && valid_utf8(name@)
    }

    /// The name of the topic of the record: what the bytes of the name read as UTF-8, which
    /// is all of them where they are valid, and nothing where the record names no topic.
    pub open spec fn topic_name(&self) -> Seq<char> {
        match self.topic {
            Some(name) => decode_utf8(name@),
            None => Seq::empty(),
        }
    }

    /// What a view of the record shows.
    pub open spec fn content(&self) -> MessageContent {
        MessageContent {
            key: slice_view(self.key),
            payload: slice_view(self.payload),
            topic: self.topic_name(),
            timestamp: Timestamp::spec_from_native(self.timestamp_type, self.timestamp),
            partition: self.partition,
            offset: self.offset,
        }
    }

    /// The address of the record that a consumer gives back to the engine at once: the
    /// record's own where it carries an error, and none where it does not.
    pub open spec fn spec_release_at_once(&self) -> Option<usize> {
        if self.err.is_error() {
            Some(self.ptr)
        } else {
            None
        }
    }

    /// Tells a consumer which record to give back to the engine at once, before anything
    /// else is done with it: this one if it carries an error, for there is no view of it
    /// then that could give it back later.
    #[verifier::when_used_as_spec(spec_release_at_once)]
    pub fn release_at_once(&self) -> (record: Option<usize>)
        ensures
            record == self.spec_release_at_once(),
    {
        if self.err.is_error() {
            Some(self.ptr)
        } else {
            None
        }
    }
}

/// Where a view of a message comes from, which decides who gives the engine's buffer back.
#[derive(Debug, Clone, Copy, PartialEq, Eq, Structural)]
pub enum Provenance {
    /// From a consumer: the buffer is the view's, to be given back when the view is dropped.
    Consumer,
    /// From the delivery callback of a producer: the buffer stays the engine's, which frees it
    /// when the callback returns.
    DeliveryReport,
}

/// A zero-copy Kafka message.
///
/// The content of the message is stored in the receiving buffer of the consumer or the
/// producer. As such, `BorrowedMessage` cannot outlive the consumer or producer it belongs to.
/// ## Consumers
/// `BorrowedMessage`s coming from consumers are removed from the consumer buffer once they are
/// dropped. Holding references to too many messages will cause the memory of the consumer to
/// fill up and the consumer to block until some of the `BorrowedMessage`s are dropped.
/// ## Conversion to owned
/// To transform a `BorrowedMessage` into a `OwnedMessage`, use the `detach` method.
#[derive(Debug)]
pub struct BorrowedMessage<'a> {
    raw: NativeMessage<'a>,
    provenance: Provenance,
}

/// The result of a message production.
///
/// If message production is successful `DeliveryResult` will contain the sent message, that
/// can be used to find which partition and offset the message was sent to. If message
/// production is not successful, the `DeliveryReport` will contain an error and the message
/// that failed to be sent.
/// ## Lifetimes
/// In both success or failure scenarios, the payload of the message resides in the buffer of
/// the producer and will be automatically removed once the `delivery` callback finishes.
pub type DeliveryResult<'a> = Result<BorrowedMessage<'a>, (KafkaError, BorrowedMessage<'a>)>;

/// The error that a consumer gets in place of a message whose record carries the failure
/// `err`: the end of the partition, with the partition's number, where that is what the code
/// says, and else the error that the engine's table gives for the code.
pub open spec fn consumption_error(err: RDKafkaRespErr, partition: i32) -> KafkaError {
    if err.code() == RESP_ERR_PARTITION_EOF {
        KafkaError::PartitionEOF(partition)
    } else {
        KafkaError::MessageConsumption(err.error())
    }
}

impl<'a> BorrowedMessage<'a> {
    /// The engine's record that the message is a view of.
    pub closed spec fn native(&self) -> NativeMessage<'a> {
        self.raw
    }

    /// Where the message comes from.
    pub closed spec fn spec_provenance(&self) -> Provenance {
        self.provenance
    }

    /// Whether the engine's buffer is to be given back when the message is dropped.
    pub open spec fn spec_releases_buffer(&self) -> bool {
        self.spec_provenance() == Provenance::Consumer
    }

    /// Creates a new `BorrowedMessage` that is a view of a record returned by a consumer. The
    /// lifetime of the message will be bound to the lifetime of the consumer passed as
    /// parameter. This method should only be used with messages coming from consumers. If
    /// the record carries an error, only the error is returned: there is no view then, and
    /// the caller gives the engine's buffer back at once, as
    /// [`NativeMessage::release_at_once`] tells it. The name of the topic is not looked at.
    pub fn from_consumer<C>(raw: NativeMessage<'a>, _consumer: &'a C) -> (received: KafkaResult<
        BorrowedMessage<'a>,
    >)
        ensures
            raw.err.is_error() ==> received == Err::<BorrowedMessage<'a>, KafkaError>(
                consumption_error(raw.err, raw.partition),
            ),
            raw.err.code() == RESP_ERR_PARTITION_EOF ==> received == Err::<
                BorrowedMessage<'a>,
                KafkaError,
            >(KafkaError::PartitionEOF(raw.partition)),
            !raw.err.is_error() ==> (received matches Ok(message) && message.native() == raw
                && message.spec_provenance() == Provenance::Consumer),
            received is Err <==> raw.release_at_once() is Some,
    {
        if raw.err.is_error() {
            let err = if raw.err.code() == RESP_ERR_PARTITION_EOF {
                KafkaError::PartitionEOF(raw.partition)
            } else {
                KafkaError::MessageConsumption(raw.err.error())
            };
            Err(err)
        } else {
            Ok(BorrowedMessage { raw, provenance: Provenance::Consumer })
        }
    }

    /// Creates a new `BorrowedMessage` that is a view of a record handed to the delivery
    /// callback of a producer. The lifetime of the message will be bound to the lifetime
    /// of the reference passed as parameter. This method should only be used with messages
    /// coming from the delivery callback. There is a view whether the delivery failed or
    /// not, and the buffer is never the view's to give back.
    pub fn from_dr_callback<O>(raw: NativeMessage<'a>, _owner: &'a O) -> (delivered:
        DeliveryResult<'a>)
        ensures
            raw.err.is_error() ==> (delivered matches Err((error, message)) && error
                == KafkaError::MessageProduction(raw.err.error()) && message.native() == raw
                && message.spec_provenance() == Provenance::DeliveryReport),
            !raw.err.is_error() ==> (delivered matches Ok(message) && message.native() == raw
                && message.spec_provenance() == Provenance::DeliveryReport),
    {
        let borrowed_message = BorrowedMessage { raw, provenance: Provenance::DeliveryReport };
        if raw.err.is_error() {
            Err((KafkaError::MessageProduction(raw.err.error()), borrowed_message))
        } else {
            Ok(borrowed_message)
        }
    }

    /// Returns the address of the engine's record.
    pub fn ptr(&self) -> (ptr: usize)
        ensures
            ptr == self.native().ptr,
    {
        self.raw.ptr
    }

    /// Returns the address of the engine's topic.
    pub fn topic_ptr(&self) -> (ptr: usize)
        ensures
            ptr == self.native().topic_ptr,
    {
        self.raw.topic_ptr
    }

    /// Returns the length of the key field of the message, 0 if there is no key.
    pub fn key_len(&self) -> (len: usize)
        ensures
            len == match self.native().key {
                Some(key) => key@.len(),
                None => 0,
            },
    {
        match self.raw.key {
            Some(key) => key.len(),
            None => 0,
        }
    }

    /// Returns the length of the payload field of the message, 0 if there is no payload.
    pub fn payload_len(&self) -> (len: usize)
        ensures
            len == match self.native().payload {
                Some(payload) => payload@.len(),
                None => 0,
            },
    {
        match self.raw.payload {
            Some(payload) => payload.len(),
            None => 0,
        }
    }

    /// Whether the record names a topic, and in text, so that [`Message::topic`] and
    /// [`BorrowedMessage::detach`] can read the name.
    pub fn has_text_topic(&self) -> (text: bool)
        ensures
            text == self.topic_is_text(),
    {
        match self.raw.topic {
            Some(name) => str_from_utf8(name).is_ok(),
            None => false,
        }
    }

    /// Where the message comes from.
    #[verifier::when_used_as_spec(spec_provenance)]
    pub fn provenance(&self) -> (provenance: Provenance)
        ensures
            provenance == self.spec_provenance(),
    {
        self.provenance
    }

    /// Whether the engine's buffer is to be given back when the message is dropped: it is
    /// for a message from a consumer, and never for one from a delivery callback.
    #[verifier::when_used_as_spec(spec_releases_buffer)]
    pub fn releases_buffer(&self) -> (release: bool)
        ensures
            release == self.spec_releases_buffer(),
    {
        match self.provenance {
            Provenance::Consumer => true,
            Provenance::DeliveryReport => false,
        }
    }

    /// Clones the content of the `BorrowedMessage` and returns an `OwnedMessage`, that can
    /// outlive the consumer. This operation requires memory allocation and can be expensive.
    /// The name of the topic must be text.
    pub fn detach(&self) -> (owned: OwnedMessage)
        requires
            self.topic_is_text(),
        ensures
            owned.content() == self.content(),
    {
        let key = match self.key() {
            Some(k) => Some(vstd::slice::slice_to_vec(k)),
            None => None,
        };
        let payload = match self.payload() {
            Some(p) => Some(vstd::slice::slice_to_vec(p)),
            None => None,
        };
        OwnedMessage {
            key,
            payload,
            topic: self.topic().to_owned(),
            timestamp: self.timestamp(),
            partition: self.partition(),
            offset: self.offset(),
        }
    }
}

impl<'a> Message for BorrowedMessage<'a> {
    open spec fn content(&self) -> MessageContent {
        self.native().content()
    }

    fn key(&self) -> (key: Option<&[u8]>) {
        self.raw.key
    }

    fn payload(&self) -> (payload: Option<&[u8]>) {
        self.raw.payload
    }

    open spec fn topic_is_text(&self) -> bool {
        self.native().names_topic()
    }

    fn topic(&self) -> (topic: &str) {
        match self.raw.topic {
            Some(name) => match str_from_utf8(name) {
                Ok(topic) => {
                    proof {
                        encode_utf8_decode_utf8(topic@);
                    }
                    topic
                },
                Err(_) => vstd::pervasive::unreached(),
            },
            None => vstd::pervasive::unreached(),
        }
    }

    fn partition(&self) -> (partition: i32) {
        self.raw.partition
    }

    fn offset(&self) -> (offset: i64) {
        self.raw.offset
    }

    fn timestamp(&self) -> (timestamp: Timestamp) {
        Timestamp::from_native(self.raw.timestamp_type, self.raw.timestamp)
    }
}

/// An `OwnedMessage` can be created from a `BorrowedMessage` using the `detach` method.
/// `OwnedMessage`s don't hold any reference to the consumer, and don't use any memory inside
/// the consumer buffer.
#[derive(Debug, Clone, PartialEq, Eq)]
pub struct OwnedMessage {
    payload: Option<Vec<u8>>,
    key: Option<Vec<u8>>,
    topic: String,
    timestamp: Timestamp,
    partition: i32,
    offset: i64,
}

impl OwnedMessage {
    /// Create a new message with the specified content. Mainly useful for writing tests.
    pub fn new(
        payload: Option<Vec<u8>>,
        key: Option<Vec<u8>>,
        topic: String,
        timestamp: Timestamp,
        partition: i32,
        offset: i64,
    ) -> (message: OwnedMessage)
        ensures
            message.content() == (MessageContent {
                key: vec_view(key),
                payload: vec_view(payload),
                topic: topic@,
                timestamp,
                partition,
                offset,
            }),
    {
        OwnedMessage { payload, key, topic, timestamp, partition, offset }
    }
}

impl Message for OwnedMessage {
    closed spec fn content(&self) -> MessageContent {
        MessageContent {
            key: vec_view(self.key),
            payload: vec_view(self.payload),
            topic: self.topic@,
            timestamp: self.timestamp,
            partition: self.partition,
            offset: self.offset,
        }
    }

    fn key(&self) -> (key: Option<&[u8]>) {
        match self.key {
            Some(ref k) => Some(k.as_slice()),
            None => None,
        }
    }

    fn payload(&self) -> (payload: Option<&[u8]>) {
        match self.payload {
            Some(ref p) => Some(p.as_slice()),
            None => None,
        }
    }

    fn topic(&self) -> (topic: &str) {
        self.topic.as_str()
    }

    fn partition(&self) -> (partition: i32) {
        self.partition
    }

    fn offset(&self) -> (offset: i64) {
        self.offset
    }

    fn timestamp(&self) -> (timestamp: Timestamp) {
        self.timestamp
    }
}

/// Given a reference to a byte array, returns a different view of the same data.
/// No copy of the data should be performed.
pub trait FromBytes {
    type Error;

    /// Whether `read` is what `from_bytes` makes of `bytes`. An implementation that is
    /// verified says it here; of any other nothing is claimed.
    open spec fn reads(bytes: Seq<u8>, read: Result<&Self, Self::Error>) -> bool {
        true
    }

    fn from_bytes(bytes: &[u8]) -> (read: Result<&Self, Self::Error>)
        ensures
            Self::reads(bytes@, read),
    ;
}

impl FromBytes for [u8] {
    type Error = ();

    /// Bytes are read as they are, and always.
    open spec fn reads(bytes: Seq<u8>, read: Result<&Self, Self::Error>) -> bool {
        read matches Ok(same) && same@ == bytes
    }

    fn from_bytes(bytes: &[u8]) -> (read: Result<&Self, Self::Error>) {
        Ok(bytes)
    }
}

/// Reads bytes as text if they are valid UTF-8.
///
/// Trusted: the body calls `core::str::from_utf8`. The contract says what its documentation
/// says: it succeeds on the slices that are valid UTF-8 and on no others, and the text it
/// then returns is made of the bytes it was given.
#[verifier::external_body]
fn str_from_utf8(bytes: &[u8]) -> (read: Result<&str, Utf8Error>)
    ensures
        read is Ok <==> valid_utf8(bytes@),
        read matches Ok(text) ==> text.spec_bytes() == bytes@,
{
    core::str::from_utf8(bytes)
}

impl FromBytes for str {
    type Error = Utf8Error;

    /// Bytes are read as text where they are valid UTF-8, and are then the bytes of the
    /// text; other bytes are refused.
    open spec fn reads(bytes: Seq<u8>, read: Result<&Self, Self::Error>) -> bool {
        &&& read is Ok <==> valid_utf8(bytes)
        &&& read matches Ok(text) ==> text.spec_bytes() == bytes
    }

    fn from_bytes(bytes: &[u8]) -> (read: Result<&Self, Self::Error>) {
        str_from_utf8(bytes)
    }
}

/// Given some data, returns the byte representation of that data.
/// No copy of the data should be performed.
pub trait ToBytes {
    /// The bytes that stand for the data. An implementation that is verified says it here;
    /// for any other nothing is known of them.
    open spec fn byte_view(&self) -> Seq<u8> {
        arbitrary()
    }

    fn to_bytes(&self) -> (bytes: &[u8])
        ensures
            bytes@ == self.byte_view(),
    ;
}

impl ToBytes for [u8] {
    open spec fn byte_view(&self) -> Seq<u8> {
        self@
    }

    fn to_bytes(&self) -> (bytes: &[u8]) {
        self
    }
}

impl ToBytes for str {
    open spec fn byte_view(&self) -> Seq<u8> {
        self.spec_bytes()
    }

    fn to_bytes(&self) -> (bytes: &[u8]) {
        self.as_bytes()
    }
}

impl ToBytes for Vec<u8> {
    open spec fn byte_view(&self) -> Seq<u8> {
        self@
    }

    fn to_bytes(&self) -> (bytes: &[u8]) {
        self.as_slice()
    }
}

impl ToBytes for String {
    open spec fn byte_view(&self) -> Seq<u8> {
        encode_utf8(self@)
    }

    fn to_bytes(&self) -> (bytes: &[u8]) {
        self.as_str().as_bytes()
    }
}

impl<'a, T: ToBytes> ToBytes for &'a T {
    open spec fn byte_view(&self) -> Seq<u8> {
        (*self).byte_view()
    }

    fn to_bytes(&self) -> (bytes: &[u8]) {
        (*self).to_bytes()
    }
}

impl ToBytes for () {
    open spec fn byte_view(&self) -> Seq<u8> {
        Seq::empty()
    }

    fn to_bytes(&self) -> (bytes: &[u8]) {
        &[]
    }
}

/// The error of `core::str::from_utf8`, carried through as it is.
#[verifier::external_type_specification]
#[verifier::external_body]
pub struct ExUtf8Error(Utf8Error);

} // verus!
