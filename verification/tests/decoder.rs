//! Log-decoder checks: shape enforcement and positional decoding.

use evm_harness::bytes::{Address, Word};
use evm_harness::logs::{decode, decode_topic, DecodeError, DecodedValue, FieldType, LogRecord};

fn sample_log() -> LogRecord {
    let mut addr32 = vec![0u8; 12];
    let mut addr20 = vec![0u8; 20];
    addr20[0] = 0xaa;
    addr32.extend_from_slice(&addr20);
    LogRecord {
        address: Address::from_bytes(vec![0x11; 20]).unwrap(),
        topics: vec![
            Word::from_u64(0xdead),
            Word::from_bytes(addr32).unwrap(),
            Word::from_u64(0xbeef),
        ],
        data: {
            let mut d = Word::from_u64(9999).as_bytes().clone();
            d.extend_from_slice(Word::from_u64(77).as_bytes());
            d
        },
    }
}

#[test]
fn decode_returns_data_fields_in_order() {
    let log = sample_log();
    let fields = decode(&log, 3, &vec![FieldType::Uint256, FieldType::Uint256]).unwrap();
    assert_eq!(fields.len(), 2);
    match &fields[0] {
        DecodedValue::Uint(w) => assert_eq!(w.as_bytes(), Word::from_u64(9999).as_bytes()),
        _ => panic!("first field should be an integer"),
    }
    match &fields[1] {
        DecodedValue::Uint(w) => assert_eq!(w.as_bytes(), Word::from_u64(77).as_bytes()),
        _ => panic!("second field should be an integer"),
    }
}

#[test]
fn wrong_topic_count_is_a_shape_mismatch() {
    let log = sample_log();
    let r = decode(&log, 2, &vec![FieldType::Uint256, FieldType::Uint256]);
    assert!(matches!(r, Err(DecodeError::LogShapeMismatch)));
}

#[test]
fn wrong_data_length_is_a_shape_mismatch() {
    let log = sample_log();
    let r = decode(&log, 3, &vec![FieldType::Uint256]);
    assert!(matches!(r, Err(DecodeError::LogShapeMismatch)));
}

#[test]
fn topic_decodes_as_address_low_twenty_bytes() {
    let log = sample_log();
    match decode_topic(&log.topics[1], FieldType::Address) {
        DecodedValue::Address(a) => {
            let mut expected = vec![0u8; 20];
            expected[0] = 0xaa;
            assert_eq!(*a.as_bytes(), expected);
        },
        _ => panic!("topic should decode as an address"),
    }
}

#[test]
fn topic_decodes_as_integer_word() {
    let log = sample_log();
    match decode_topic(&log.topics[2], FieldType::Uint256) {
        DecodedValue::Uint(w) => assert_eq!(w.as_bytes(), Word::from_u64(0xbeef).as_bytes()),
        _ => panic!("topic should decode as an integer"),
    }
}
