use rdkafka::client::{
    default_error, default_log, default_stats, native_error_cb, native_log_cb, native_stats_cb,
    try_native_error_cb, Client, Context, EmptyContext, MetadataCall, MetadataQuery,
    TopicRequest, ERRSTR_LEN, WATERMARK_UNSET,
};
use rdkafka::config::RDKafkaLogLevel;
use rdkafka::error::{KafkaError, RDKafkaError, RDKafkaRespErr, RESP_ERR_FAIL};
use rdkafka::logging::{LogEvent, LogLevel};
use rdkafka::message::{BorrowedMessage, NativeMessage, TimestampType};
use rdkafka::statistics::Statistics;
use std::collections::HashMap;
use std::sync::Mutex;

fn code(raw: i32) -> RDKafkaRespErr {
    RDKafkaRespErr::from_code(raw).unwrap()
}

fn some_client() -> Client<EmptyContext> {
    Client::new(0x5000, &[0u8; 1024], Box::new(EmptyContext::new())).unwrap()
}

fn some_stats() -> Statistics {
    Statistics {
        name: "rdkafka#producer-1".to_string(),
        client_type: "producer".to_string(),
        ts: 5,
        time: 6,
        replyq: 0,
        msg_cnt: 1,
        msg_size: 2,
        msg_max: 3,
        msg_size_max: 4,
        brokers: HashMap::new(),
        topics: HashMap::new(),
        cgrp: None,
    }
}

#[derive(Default)]
struct Recorder {
    lines: Mutex<Vec<(RDKafkaLogLevel, String, String)>>,
    stats: Mutex<Vec<Statistics>>,
    errors: Mutex<Vec<(KafkaError, String)>>,
}

impl Context for Recorder {
    fn log(&self, level: RDKafkaLogLevel, fac: &str, log_message: &str) -> Option<LogEvent> {
        self.lines.lock().unwrap().push((level, fac.to_string(), log_message.to_string()));
        None
    }

    fn stats(&self, statistics: Statistics) -> Option<LogEvent> {
        self.stats.lock().unwrap().push(statistics);
        None
    }

    fn error(&self, error: KafkaError, reason: &str) -> Option<LogEvent> {
        self.errors.lock().unwrap().push((error, reason.to_string()));
        None
    }
}

struct OnlyErrors;

impl Context for OnlyErrors {
    fn error(&self, _error: KafkaError, reason: &str) -> Option<LogEvent> {
        Some(LogEvent::StatsParseFailure(reason.to_uppercase()))
    }
}

#[test]
fn test_client() {
    let client = Client::new(0x5000, &[0u8; 1024], Box::new(EmptyContext::new())).unwrap();
    assert!(client.native_ptr() != 0);
}

#[test]
fn test_client_creation_failure_carries_the_reason() {
    let mut errstr = [0u8; 1024];
    errstr[..21].copy_from_slice(b"No such configuration");
    let created = Client::new(0, &errstr, Box::new(EmptyContext::new()));
    assert_eq!(
        created.err(),
        Some(KafkaError::ClientCreation("No such configuration".to_string()))
    );
}

#[test]
fn test_client_keeps_handle_and_context() {
    let client = Client::new(0x5000, b"ignored\0", Box::new(Recorder::default())).unwrap();
    assert_eq!(client.native_ptr(), 0x5000);
    assert_eq!(client.native_client().ptr(), 0x5000);
    assert!(client.native_client().is_live());
    assert!(client.context().lines.lock().unwrap().is_empty());
}

#[test]
fn test_client_shutdown_destroys_once_and_first() {
    let client = some_client();
    let ending = client.shutdown();
    let mut ending = match ending.into_context() {
        Ok(_) => panic!("the context was given up before the engine's client"),
        Err(ending) => ending,
    };
    assert_eq!(ending.destroy_client(), Some(0x5000));
    assert_eq!(ending.destroy_client(), None);
    assert!(ending.into_context().is_ok());
}

fn all_topics(client: &Client<EmptyContext>, timeout_ms: i32) -> MetadataCall {
    match client.fetch_metadata(None, timeout_ms).unwrap() {
        MetadataQuery::AllTopics(call) => call,
        MetadataQuery::OneTopic(_) => panic!("no topic was named"),
    }
}

fn one_topic(client: &Client<EmptyContext>, name: &str, timeout_ms: i32) -> TopicRequest {
    match client.fetch_metadata(Some(name), timeout_ms).unwrap() {
        MetadataQuery::OneTopic(request) => request,
        MetadataQuery::AllTopics(_) => panic!("a topic was named"),
    }
}

fn empty_answer() -> RDKafkaError {
    RDKafkaError { code: RESP_ERR_FAIL }
}

#[test]
fn test_metadata() {
    let client = some_client();

    let all = all_topics(&client, 5000);
    assert_eq!(all.client(), 0x5000);
    assert_eq!(all.only_topic(), 0);
    assert_eq!(all.timeout_ms(), 5000);
    assert_eq!(all.all_topics(), 1);
    let (metadata, topic_due) = all.complete(code(0), 0x9000);
    let metadata = metadata.unwrap();
    assert_eq!(metadata.ptr(), 0x9000);
    assert!(metadata.is_live());
    assert_eq!(topic_due, None);

    let topic_name = "rdkafka_test_topic";
    let one = one_topic(&client, &topic_name, 5000);
    assert_eq!(one.client, 0x5000);
    assert_eq!(one.name.as_bytes(), topic_name.as_bytes());
    assert_eq!(one.timeout_ms, 5000);
    let call = one.topic_created(0xb000, code(0)).unwrap();
    assert_eq!(call.client(), 0x5000);
    assert_eq!(call.only_topic(), 0xb000);
    assert_eq!(call.all_topics(), 0);
    assert_eq!(call.timeout_ms(), 5000);
    let (metadata, topic_due) = call.complete(code(0), 0x9000);
    assert_eq!(metadata.unwrap().ptr(), 0x9000);
    assert_eq!(topic_due, Some(0xb000));
}

#[test]
fn test_metadata_topic_that_the_engine_did_not_make() {
    let client = some_client();
    let request = one_topic(&client, "orders", 100);
    assert_eq!(
        request.topic_created(0, code(-190)).err(),
        Some(KafkaError::MetadataFetch(code(-190).error()))
    );
}

#[test]
fn test_metadata_topic_is_due_after_a_failure_too() {
    let client = some_client();
    let call = one_topic(&client, "orders", 100).topic_created(0xb000, code(0)).unwrap();
    let (fetched, topic_due) = call.complete(code(-185), 0);
    assert_eq!(fetched.err(), Some(KafkaError::MetadataFetch(code(-185).error())));
    assert_eq!(topic_due, Some(0xb000));
}

#[test]
fn test_metadata_success_without_metadata() {
    let client = some_client();
    let (fetched, topic_due) = all_topics(&client, 100).complete(code(0), 0);
    assert_eq!(fetched.err(), Some(KafkaError::MetadataFetch(empty_answer())));
    assert_eq!(topic_due, None);
    let call = one_topic(&client, "orders", 100).topic_created(0xb000, code(0)).unwrap();
    let (fetched, topic_due) = call.complete(code(0), 0);
    assert_eq!(fetched.err(), Some(KafkaError::MetadataFetch(empty_answer())));
    assert_eq!(topic_due, Some(0xb000));
}

#[test]
fn test_client_creation_failure_with_reason_that_is_not_text() {
    let created = Client::new(0, b"bad \xff reason\0rest", Box::new(EmptyContext::new()));
    assert_eq!(
        created.err(),
        Some(KafkaError::ClientCreation("bad \u{fffd} reason".to_string()))
    );
    let empty = Client::new(0, &[0u8; 1024], Box::new(EmptyContext::new()));
    assert_eq!(empty.err(), Some(KafkaError::ClientCreation(String::new())));
}

#[test]
fn test_metadata_failure() {
    let client = some_client();
    let (fetched, topic_due) = all_topics(&client, 100).complete(code(-185), 0);
    assert_eq!(fetched.err(), Some(KafkaError::MetadataFetch(code(-185).error())));
    assert_eq!(topic_due, None);
}

#[test]
fn test_metadata_refuses_nul_in_topic() {
    let client = some_client();
    assert_eq!(client.fetch_metadata(Some("a\0b"), 5000).err(), Some(KafkaError::Nul(1)));
}

#[test]
fn test_watermarks() {
    let client = some_client();
    let query = client.fetch_watermarks("orders", 3, 1000).unwrap();
    assert_eq!(query.client, 0x5000);
    assert_eq!(query.topic.as_bytes(), b"orders");
    assert_eq!(query.partition, 3);
    assert_eq!(query.timeout_ms, 1000);
    assert_eq!(query.complete(code(0), 10, 25), Ok((10, 25)));
}

#[test]
fn test_watermarks_of_empty_partition() {
    let client = some_client();
    let query = client.fetch_watermarks("orders", 0, 1000).unwrap();
    let (low, high) = query.complete(code(0), 0, 0).unwrap();
    assert_eq!(low, high);
}

#[test]
fn test_watermarks_success_with_unset_values_is_an_error() {
    let client = some_client();
    let unset = Err(KafkaError::MetadataFetch(empty_answer()));
    let query = client.fetch_watermarks("orders", 3, 1000).unwrap();
    assert_eq!(query.complete(code(0), WATERMARK_UNSET, WATERMARK_UNSET), unset);
    let query = client.fetch_watermarks("orders", 3, 1000).unwrap();
    assert_eq!(query.complete(code(0), WATERMARK_UNSET, 7), unset);
    let query = client.fetch_watermarks("orders", 3, 1000).unwrap();
    assert_eq!(query.complete(code(0), 0, WATERMARK_UNSET), unset);
    let query = client.fetch_watermarks("orders", 3, 1000).unwrap();
    assert_eq!(query.complete(code(0), 0, 0), Ok((0, 0)));
}

#[test]
fn test_watermarks_failure_hides_unset_values() {
    let client = some_client();
    assert_eq!(WATERMARK_UNSET, -1);
    let query = client.fetch_watermarks("orders", 3, 1000).unwrap();
    assert_eq!(
        query.complete(code(-185), WATERMARK_UNSET, WATERMARK_UNSET),
        Err(KafkaError::MetadataFetch(code(-185).error()))
    );
    assert_eq!(client.fetch_watermarks("or\0ders", 3, 1000).err(), Some(KafkaError::Nul(2)));
}

#[test]
fn test_group_membership() {
    let client = some_client();

    let all = client.fetch_group_list(None, 5000).unwrap();
    assert_eq!(all.client, 0x5000);
    assert_eq!(all.group, None);
    assert_eq!(all.timeout_ms, 5000);
    let groups = all.complete(code(0), 0xa000).unwrap();
    assert_eq!(groups.ptr(), 0xa000);

    let group_name = "rdkafka_integration_test_client";
    let one = client.fetch_group_list(Some(&group_name), 5000).unwrap();
    assert_eq!(one.group.as_ref().unwrap().as_bytes(), group_name.as_bytes());
    assert_eq!(one.timeout_ms, 5000);
}

#[test]
fn test_group_list_empty_name_and_failures() {
    let client = some_client();
    let empty = client.fetch_group_list(Some(""), 10).unwrap();
    assert_eq!(empty.group.as_ref().unwrap().as_bytes(), b"");
    assert_eq!(
        empty.complete(code(-185), 0).err(),
        Some(KafkaError::GroupListFetch(code(-185).error()))
    );
    let all = client.fetch_group_list(None, 10).unwrap();
    assert_eq!(all.complete(code(0), 0).err(), Some(KafkaError::GroupListFetch(empty_answer())));
    assert_eq!(client.fetch_group_list(Some("\0"), 10).err(), Some(KafkaError::Nul(0)));
}

#[test]
fn test_errstr_len() {
    assert_eq!(ERRSTR_LEN, 1024);
}

#[test]
fn test_defaults_hand_back_what_they_get() {
    assert_eq!(
        default_log(RDKafkaLogLevel::Alert, "FAC", "msg"),
        Some(LogEvent::Engine {
            level: RDKafkaLogLevel::Alert,
            fac: "FAC".to_string(),
            message: "msg".to_string(),
        })
    );
    assert_eq!(default_stats(some_stats()), Some(LogEvent::Stats(some_stats())));
    assert_eq!(
        default_error(KafkaError::Global(code(-195).error()), "why"),
        Some(LogEvent::EngineError {
            error: KafkaError::Global(code(-195).error()),
            reason: "why".to_string(),
        })
    );
}

#[test]
fn test_log_callback_reaches_the_context() {
    let context = Recorder::default();
    assert_eq!(native_log_cb(&context, 3, b"FAC ", b" something failed\n"), None);
    assert_eq!(native_log_cb(&context, 7, b"DBG", b"detail"), None);
    assert_eq!(native_log_cb(&context, 99, b"", b"   "), None);
    assert_eq!(
        *context.lines.lock().unwrap(),
        vec![
            (RDKafkaLogLevel::Error, "FAC".to_string(), "something failed".to_string()),
            (RDKafkaLogLevel::Debug, "DBG".to_string(), "detail".to_string()),
            (RDKafkaLogLevel::Debug, "".to_string(), "".to_string()),
        ]
    );
}

#[test]
fn test_log_callback_trims_and_replaces() {
    let logged = native_log_cb(&EmptyContext::new(), 4, b" FAIL \n", b"\tbroker \xff down\r\n");
    assert_eq!(
        logged,
        Some(LogEvent::Engine {
            level: RDKafkaLogLevel::Warning,
            fac: "FAIL".to_string(),
            message: "broker \u{fffd} down".to_string(),
        })
    );
    assert_eq!(logged.unwrap().level(), LogLevel::Warn);
}

#[test]
fn test_default_context_logs_the_line() {
    assert_eq!(
        native_log_cb(&EmptyContext::new(), 5, b"FAC", b" note "),
        Some(LogEvent::Engine {
            level: RDKafkaLogLevel::Notice,
            fac: "FAC".to_string(),
            message: "note".to_string(),
        })
    );
}

#[test]
fn test_overriding_one_method_keeps_the_other_defaults() {
    let context = OnlyErrors;
    assert_eq!(
        native_log_cb(&context, 6, b"FAC", b"msg"),
        Some(LogEvent::Engine {
            level: RDKafkaLogLevel::Info,
            fac: "FAC".to_string(),
            message: "msg".to_string(),
        })
    );
    assert_eq!(native_stats_cb(&context, Ok(some_stats())), (0, Some(LogEvent::Stats(some_stats()))));
    assert_eq!(
        native_error_cb(&context, -195, b"gone"),
        Some(LogEvent::StatsParseFailure("GONE".to_string()))
    );
}

#[test]
fn test_stats_callback_delivers_statistics() {
    let context = Recorder::default();
    assert_eq!(native_stats_cb(&context, Ok(some_stats())), (0, None));
    assert_eq!(*context.stats.lock().unwrap(), vec![some_stats()]);
}

#[test]
fn test_stats_callback_logs_parse_failure() {
    let context = Recorder::default();
    let done = native_stats_cb(&context, Err("expected value at line 1".to_string()));
    assert_eq!(
        done,
        (0, Some(LogEvent::StatsParseFailure("expected value at line 1".to_string())))
    );
    assert!(context.stats.lock().unwrap().is_empty());
}

#[test]
fn test_default_context_logs_statistics() {
    assert_eq!(
        native_stats_cb(&EmptyContext::new(), Ok(some_stats())),
        (0, Some(LogEvent::Stats(some_stats())))
    );
}

#[test]
fn test_error_callback_reaches_the_context() {
    let context = Recorder::default();
    assert_eq!(native_error_cb(&context, -187, b"2/2 brokers are down\n"), None);
    assert_eq!(
        *context.errors.lock().unwrap(),
        vec![(KafkaError::Global(code(-187).error()), "2/2 brokers are down".to_string())]
    );
}

#[test]
fn test_default_context_logs_the_error() {
    assert_eq!(
        try_native_error_cb(&EmptyContext::new(), -195, b" gone "),
        Ok(Some(LogEvent::EngineError {
            error: KafkaError::Global(code(-195).error()),
            reason: "gone".to_string(),
        }))
    );
}

#[test]
fn test_error_callback_with_unknown_code() {
    let context = Recorder::default();
    assert_eq!(try_native_error_cb(&context, 12345, b"what"), Err(12345));
    assert!(context.errors.lock().unwrap().is_empty());
    assert_eq!(try_native_error_cb(&context, -187, b"what"), Ok(None));
    assert_eq!(context.errors.lock().unwrap().len(), 1);
}

#[test]
fn test_default_delivery_leaves_nothing_to_log() {
    let owner = ();
    let raw = NativeMessage {
        ptr: 1,
        topic_ptr: 2,
        err: code(-192),
        topic: Some(b"orders"),
        partition: -1,
        offset: 0,
        key: None,
        payload: Some(b"lost"),
        timestamp_type: TimestampType::NotAvailable,
        timestamp: -1,
    };
    let report = BorrowedMessage::from_dr_callback(raw, &owner);
    assert_eq!(EmptyContext::new().delivery(&report), None);
    assert_eq!(OnlyErrors.delivery(&report), None);
}
