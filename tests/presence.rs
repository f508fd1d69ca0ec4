use cogmind_presence::cycle::{
    after_introspection, after_publish, CycleAction, BACKOFF_SECS, PUBLISHED_WAIT_SECS,
};
use cogmind_presence::introspect::{describe_record, IntrospectError};
use cogmind_presence::layout::LayoutError;
use cogmind_presence::presence::{get_presence, push_decimal};
use cogmind_presence::types::{InvalidMapType, MapType};

fn record(depth: i32, code: i32) -> Vec<u8> {
    let mut bytes = vec![0x4C, 0xFA, 0xAD, 0x64];
    bytes.extend_from_slice(&[0, 0, 0, 0, 1, 0, 0, 0, 0x40, 0, 0, 0, 0x30, 0, 0, 0]);
    bytes.extend_from_slice(&depth.to_le_bytes());
    bytes.extend_from_slice(&code.to_le_bytes());
    bytes.extend_from_slice(&[0; 16]);
    bytes
}

#[test]
fn end_to_end_scenario() {
    let bytes: Vec<u8> = vec![
        0x4C, 0xFA, 0xAD, 0x64, 0x00, 0x00, 0x00, 0x00, 0x01, 0x00, 0x00, 0x00, 0x40, 0x00, 0x00,
        0x00, 0x30, 0x00, 0x00, 0x00, 0x05, 0x00, 0x00, 0x00, 0x03, 0x00, 0x00, 0x00, 0x00, 0x00,
        0x00, 0x00, 0x00, 0x00, 0x00, 0x00, 0x00, 0x00, 0x00, 0x00, 0x00, 0x00, 0x00, 0x00,
    ];
    assert_eq!(describe_record(&bytes).unwrap(), "Current map: 5/Factory");
}

#[test]
fn presence_line_format() {
    assert_eq!(get_presence(5, MapType::MapFac), "Current map: 5/Factory");
    assert_eq!(get_presence(0, MapType::MapNone), "Current map: 0/None");
    assert_eq!(get_presence(-10, MapType::MapHub), "Current map: -10/Hub_04(d)");
    assert_eq!(get_presence(1234, MapType::MapW08), "Current map: 1234/w8");
}

#[test]
fn decimal_extremes() {
    let mut s = String::new();
    push_decimal(&mut s, i32::MIN);
    assert_eq!(s, "-2147483648");
    let mut t = String::from("x");
    push_decimal(&mut t, i32::MAX);
    assert_eq!(t, "x2147483647");
}

#[test]
fn unknown_code_in_record_fails() {
    assert_eq!(
        describe_record(&record(5, 999)),
        Err(IntrospectError::UnknownMap(InvalidMapType(999)))
    );
    assert_eq!(
        describe_record(&record(5, -2)),
        Err(IntrospectError::UnknownMap(InvalidMapType(-2)))
    );
}

#[test]
fn short_record_fails_to_describe() {
    let mut bytes = record(5, 3);
    bytes.truncate(40);
    assert_eq!(
        describe_record(&bytes),
        Err(IntrospectError::Layout(LayoutError { expected: 44, found: 40 }))
    );
}

#[test]
fn failed_publish_then_next_cycle_uses_its_own_read() {
    let first = after_introspection(describe_record(&record(5, 3)));
    let first_text = match first {
        CycleAction::Publish(s) => s,
        CycleAction::Backoff(_) => panic!("first cycle should publish"),
    };
    assert_eq!(first_text, "Current map: 5/Factory");
    assert_eq!(after_publish(false), BACKOFF_SECS);

    let second = after_introspection(describe_record(&record(6, 4)));
    match second {
        CycleAction::Publish(s) => assert_eq!(s, "Current map: 6/Research"),
        CycleAction::Backoff(_) => panic!("second cycle should publish"),
    }
    assert_eq!(after_publish(true), PUBLISHED_WAIT_SECS);
}

#[test]
fn failed_pass_backs_off() {
    let action = after_introspection(Err(IntrospectError::RecordRead { address: 0xC0_0000 }));
    assert!(matches!(action, CycleAction::Backoff(5)));
    assert_eq!(PUBLISHED_WAIT_SECS, 60);
}

use cogmind_presence::introspect::status_from_read;

#[test]
fn failed_record_read_is_an_error() {
    assert_eq!(
        status_from_read(0xC0_1000, &None),
        Err(IntrospectError::RecordRead { address: 0xC0_1000 })
    );
}

#[test]
fn record_read_outcome_is_described() {
    assert_eq!(
        status_from_read(0xC0_1000, &Some(record(7, 1000))).unwrap(),
        "Current map: 7/w0"
    );
    assert_eq!(
        status_from_read(0xC0_1000, &Some(record(7, 1000)[..43].to_vec())),
        Err(IntrospectError::Layout(LayoutError { expected: 44, found: 43 }))
    );
}

#[test]
fn distinct_locations_give_distinct_lines() {
    assert_ne!(get_presence(5, MapType::MapAcc), get_presence(5, MapType::MapAc0));
    assert_ne!(get_presence(1, MapType::MapW00), get_presence(10, MapType::MapW00));
}
