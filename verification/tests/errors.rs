use rdkafka::error::{
    KafkaError, RDKafkaError, RDKafkaRespErr, RESP_ERR_FAIL, RESP_ERR_NO_ERROR,
    RESP_ERR_PARTITION_EOF,
};
use rdkafka_sys::types::{RDKafkaErrorCode, RDKafkaRespErr as EngineRespErr};

#[test]
fn test_engine_constants() {
    assert_eq!(RESP_ERR_NO_ERROR, EngineRespErr::RD_KAFKA_RESP_ERR_NO_ERROR as i32);
    assert_eq!(RESP_ERR_PARTITION_EOF, EngineRespErr::RD_KAFKA_RESP_ERR__PARTITION_EOF as i32);
    assert_eq!(RESP_ERR_FAIL, EngineRespErr::RD_KAFKA_RESP_ERR__FAIL as i32);
    assert_eq!(RESP_ERR_NO_ERROR, 0);
    assert_eq!(RESP_ERR_PARTITION_EOF, -191);
    assert_eq!(RESP_ERR_FAIL, -196);
    assert_eq!(
        RDKafkaRespErr::from_code(RESP_ERR_FAIL).unwrap().error().code,
        RDKafkaErrorCode::Fail as i32
    );
}

#[test]
fn test_known_code_has_error() {
    let err = RDKafkaRespErr::from_code(-195).unwrap();
    assert_eq!(err.code(), -195);
    assert!(err.is_error());
    assert_eq!(err.error(), RDKafkaError { code: RDKafkaErrorCode::BrokerTransportFailure as i32 });
}

#[test]
fn test_no_error_is_no_failure() {
    let ok = RDKafkaRespErr::from_code(0).unwrap();
    assert_eq!(ok.code(), 0);
    assert!(!ok.is_error());
    assert_eq!(ok.error().code, RDKafkaErrorCode::NoError as i32);
}

#[test]
fn test_partition_eof_is_known() {
    let eof = RDKafkaRespErr::from_code(RESP_ERR_PARTITION_EOF).unwrap();
    assert!(eof.is_error());
    assert_eq!(eof.error().code, RDKafkaErrorCode::PartitionEOF as i32);
}

#[test]
fn test_broker_side_code_has_error() {
    let err = RDKafkaRespErr::from_code(3).unwrap();
    assert_eq!(err.error().code, RDKafkaErrorCode::UnknownTopicOrPartition as i32);
}

#[test]
fn test_error_has_the_number_of_its_code() {
    for raw in [-200, -191, -185, -1, 0, 1, 3, 56, 129] {
        let err = RDKafkaRespErr::from_code(raw).unwrap();
        assert_eq!(err.error(), RDKafkaError { code: raw });
    }
}

#[test]
fn test_unknown_code_is_refused() {
    assert_eq!(RDKafkaRespErr::from_code(-120), None);
    assert_eq!(RDKafkaRespErr::from_code(12345), None);
    assert_eq!(RDKafkaRespErr::from_code(i32::MIN), None);
}

#[test]
fn test_errors_compare_by_what_they_hold() {
    assert_eq!(KafkaError::PartitionEOF(3), KafkaError::PartitionEOF(3));
    assert_ne!(KafkaError::PartitionEOF(3), KafkaError::PartitionEOF(4));
    assert_ne!(
        KafkaError::MetadataFetch(RDKafkaError { code: -195 }),
        KafkaError::GroupListFetch(RDKafkaError { code: -195 })
    );
    assert_eq!(KafkaError::Nul(2), KafkaError::Nul(2));
}
