//! The statistics that the engine reports of a client from time to time.
use std::collections::HashMap;
use vstd::prelude::*;

verus! {

/// A summary of the values seen in one window of time.
#[derive(Debug, Clone, PartialEq, Eq)]
pub struct Window {
    /// The smallest value.
    pub min: i64,
    /// The largest value.
    pub max: i64,
    /// The average value.
    pub avg: i64,
    /// The sum of the values.
    pub sum: i64,
    /// The number of values.
    pub cnt: i64,
}

/// A partition that a broker leads.
#[derive(Debug, Clone, PartialEq, Eq)]
pub struct TopicPartition {
    /// The name of the topic.
    pub topic: String,
    /// The number of the partition.
    pub partition: i32,
}

/// What the client knows of one broker.
#[derive(Debug, Clone, PartialEq, Eq)]
pub struct Broker {
    /// The broker's host name, port and identifier.
    pub name: String,
    /// The broker's identifier, -1 for a bootstrap broker.
    pub nodeid: i32,
    /// The state of the connection.
    pub state: String,
    /// The time since the last change of state, in microseconds.
    pub stateage: i64,
    /// The requests that wait to be sent.
    pub outbuf_cnt: i64,
    /// The messages in the requests that wait to be sent.
    pub outbuf_msg_cnt: i64,
    /// The requests in flight.
    pub waitresp_cnt: i64,
    /// The messages in the requests in flight.
    pub waitresp_msg_cnt: i64,
    /// The requests sent.
    pub tx: i64,
    /// The bytes sent.
    pub txbytes: i64,
    /// The errors of transmission.
    pub txerrs: i64,
    /// The requests sent again.
    pub txretries: i64,
    /// The requests that timed out.
    pub req_timeouts: i64,
    /// The responses received.
    pub rx: i64,
    /// The bytes received.
    pub rxbytes: i64,
    /// The errors of reception.
    pub rxerrs: i64,
    /// The responses that matched no request.
    pub rxcorriderrs: i64,
    /// The responses received in part.
    pub rxpartial: i64,
    /// The times a decompression buffer had to grow.
    pub zbuf_grow: i64,
    /// The times a buffer had to grow.
    pub buf_grow: i64,
    /// The times the broker's thread was woken.
    pub wakeups: Option<i64>,
    /// The latency of the producer's queue, in microseconds.
    pub int_latency: Option<Window>,
    /// The round-trip time to the broker, in microseconds.
    pub rtt: Option<Window>,
    /// The time the broker throttled the client, in milliseconds.
    pub throttle: Option<Window>,
    /// The partitions that the broker leads, by the name of the topic and the number of the
    /// partition.
    pub toppars: HashMap<String, TopicPartition>,
}

/// What the client knows of one partition.
#[derive(Debug, Clone, PartialEq, Eq)]
pub struct Partition {
    /// The number of the partition.
    pub partition: i32,
    /// The identifier of the broker that leads it.
    pub leader: i32,
    /// Whether the application asked for the partition.
    pub desired: bool,
    /// Whether the cluster does not know the partition.
    pub unknown: bool,
    /// The messages that wait in the first queue.
    pub msgq_cnt: i64,
    /// The bytes that wait in the first queue.
    pub msgq_bytes: i64,
    /// The messages ready to be sent.
    pub xmit_msgq_cnt: i64,
    /// The bytes ready to be sent.
    pub xmit_msgq_bytes: i64,
    /// The messages fetched ahead for the consumer.
    pub fetchq_cnt: i64,
    /// The bytes fetched ahead for the consumer.
    pub fetchq_size: i64,
    /// The state of the consumer's fetcher.
    pub fetch_state: String,
    /// The offset asked for last.
    pub query_offset: i64,
    /// The next offset to fetch.
    pub next_offset: i64,
    /// The offset of the last message given to the application, plus one.
    pub app_offset: i64,
    /// The offset to be committed.
    pub stored_offset: i64,
    /// The offset committed last.
    pub committed_offset: i64,
    /// The offset at which the end of the partition was last reported.
    pub eof_offset: i64,
    /// The low watermark on the broker.
    pub lo_offset: i64,
    /// The high watermark on the broker.
    pub hi_offset: i64,
    /// How far the consumer is behind the high watermark.
    pub consumer_lag: i64,
    /// The messages sent.
    pub txmsgs: i64,
    /// The bytes sent.
    pub txbytes: i64,
    /// The messages received or sent.
    pub msgs: i64,
}

/// What the client knows of one topic.
#[derive(Debug, Clone, PartialEq, Eq)]
pub struct Topic {
    /// The name of the topic.
    pub topic: String,
    /// The age of the client's metadata of the topic, in milliseconds.
    pub metadata_age: i64,
    /// The partitions of the topic, by number.
    pub partitions: HashMap<i32, Partition>,
}

/// What the client knows of its consumer group.
#[derive(Debug, Clone, PartialEq, Eq)]
pub struct ConsumerGroup {
    /// The time since the last rebalance, in milliseconds.
    pub rebalance_age: i64,
    /// The number of rebalances.
    pub rebalance_cnt: i64,
    /// The number of partitions assigned.
    pub assignment_size: i32,
}

/// The statistics of one client.
#[derive(Debug, Clone, PartialEq, Eq)]
pub struct Statistics {
    /// The name of the client's handle.
    pub name: String,
    /// The kind of client, a producer or a consumer.
    pub client_type: String,
    /// The engine's own clock, in microseconds.
    pub ts: i64,
    /// The wall clock, in seconds since the epoch.
    pub time: i64,
    /// The operations that wait for the application to serve them.
    pub replyq: i64,
    /// The messages in the producer's queues.
    pub msg_cnt: i64,
    /// The bytes in the producer's queues.
    pub msg_size: i64,
    /// The most messages that the producer's queues take.
    pub msg_max: i64,
    /// The most bytes that the producer's queues take.
    pub msg_size_max: i64,
    /// The brokers, by name.
    pub brokers: HashMap<String, Broker>,
    /// The topics, by name.
    pub topics: HashMap<String, Topic>,
    /// The consumer group, for a consumer that has one.
    pub cgrp: Option<ConsumerGroup>,
}

} // verus!
