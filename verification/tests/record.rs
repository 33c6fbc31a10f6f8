use bgpstream::address::{IpAddress, RawAddress, RawPrefix};
use bgpstream::element::{ElementPull, ElementType, RawElement, ELEM_TYPE_RIB};
use bgpstream::record::{
    classify_status, PulledRecord, RawRecord, Record, RecordClass, RecordPull,
    RECORD_STATUS_CORRUPTED_RECORD, RECORD_STATUS_CORRUPTED_SOURCE, RECORD_STATUS_EMPTY_SOURCE,
    RECORD_STATUS_FILTERED_SOURCE, RECORD_STATUS_OUTSIDE_TIME_INTERVAL,
    RECORD_STATUS_UNSUPPORTED_RECORD, RECORD_STATUS_VALID_RECORD, RECORD_TYPE_RIB,
    RECORD_TYPE_UPDATE,
};
use bgpstream::timestamp::Timestamp;
use bgpstream::BgpStreamError;

fn raw_v4(a: u8, b: u8, c: u8, d: u8) -> RawAddress {
    let mut octets = [0u8; 16];
    octets[..4].copy_from_slice(&[a, b, c, d]);
    RawAddress { version: 4, octets }
}

fn raw_record(status: u32) -> RawRecord {
    RawRecord {
        status,
        kind: RECORD_TYPE_UPDATE,
        time_sec: 1_699_437_300,
        time_usec: 2_000_001,
        project_name: b"ris\0\0\0\0\0".to_vec(),
        collector_name: b"rrc00\0xx".to_vec(),
        router_name: b"\0".to_vec(),
        router_ip: raw_v4(203, 0, 113, 9),
    }
}

fn pull(status: u32) -> RecordPull {
    RecordPull { code: 1, record: Some(raw_record(status)) }
}

fn valid_record() -> Record {
    match Record::new(pull(RECORD_STATUS_VALID_RECORD)) {
        Ok(PulledRecord::Record(record)) => record,
        other => panic!("no record: {:?}", other),
    }
}

fn rib_entry() -> RawElement {
    RawElement {
        kind: ELEM_TYPE_RIB,
        orig_time_sec: 0,
        orig_time_usec: 0,
        peer_ip: raw_v4(198, 51, 100, 7),
        peer_asn: 64500,
        prefix: RawPrefix { address: raw_v4(192, 0, 2, 0), mask_len: 24 },
        nexthop: raw_v4(198, 51, 100, 1),
        as_path: vec![None],
        communities: vec![None],
        has_origin: false,
        origin: 0,
        has_med: false,
        med: 0,
        has_local_pref: false,
        local_pref: 0,
        old_state: 0,
        new_state: 0,
    }
}

#[test]
fn valid_record_has_its_time_resolved() {
    let record = valid_record();
    assert_eq!(record.time(), Timestamp { seconds: 1_699_437_302, microseconds: 1 });
    assert!(!record.exhausted);
}

#[test]
fn end_of_stream_is_no_error() {
    let r = Record::new(RecordPull { code: 0, record: None });
    assert!(matches!(r, Ok(PulledRecord::EndOfStream)));
    let r = Record::new(RecordPull { code: 0, record: Some(raw_record(5)) });
    assert!(matches!(r, Ok(PulledRecord::EndOfStream)));
}

#[test]
fn negative_code_is_a_failed_pull() {
    for code in [-1, -7, i32::MIN] {
        let r = Record::new(RecordPull { code, record: Some(raw_record(0)) });
        assert_eq!(r.err(), Some(BgpStreamError::GetNextRecord));
    }
}

#[test]
fn missing_record_is_reported() {
    let r = Record::new(RecordPull { code: 1, record: None });
    assert_eq!(r.err(), Some(BgpStreamError::GetNextRecordNull));
}

#[test]
fn record_outside_the_interval_is_skipped() {
    let r = Record::new(pull(RECORD_STATUS_OUTSIDE_TIME_INTERVAL));
    assert!(matches!(r, Ok(PulledRecord::Skipped)));
}

#[test]
fn statuses_of_an_unusable_source_share_one_error() {
    for status in
        [RECORD_STATUS_FILTERED_SOURCE, RECORD_STATUS_EMPTY_SOURCE, RECORD_STATUS_CORRUPTED_SOURCE]
    {
        assert_eq!(
            Record::new(pull(status)).err(),
            Some(BgpStreamError::RecordSourceEmptyOrCorrupted)
        );
    }
}

#[test]
fn corrupted_unsupported_and_unknown_statuses() {
    assert_eq!(
        Record::new(pull(RECORD_STATUS_CORRUPTED_RECORD)).err(),
        Some(BgpStreamError::RecordCorrupted)
    );
    assert_eq!(
        Record::new(pull(RECORD_STATUS_UNSUPPORTED_RECORD)).err(),
        Some(BgpStreamError::RecordUnsupported)
    );
    for status in [7u32, 8, 1000, u32::MAX] {
        assert_eq!(Record::new(pull(status)).err(), Some(BgpStreamError::UnknownRecordStatus));
    }
}

#[test]
fn status_classes() {
    assert!(matches!(classify_status(0), RecordClass::Valid));
    assert!(matches!(classify_status(3), RecordClass::Skipped));
    assert!(matches!(
        classify_status(1),
        RecordClass::Failed(BgpStreamError::RecordSourceEmptyOrCorrupted)
    ));
    assert!(matches!(classify_status(5), RecordClass::Failed(BgpStreamError::RecordCorrupted)));
}

#[test]
fn record_time_out_of_range() {
    let mut raw = raw_record(RECORD_STATUS_VALID_RECORD);
    raw.time_sec = -377_705_116_801;
    let r = Record::new(RecordPull { code: 1, record: Some(raw) });
    assert_eq!(r.err(), Some(BgpStreamError::Timestamp));
}

#[test]
fn names_are_read_up_to_the_first_nul() {
    let record = valid_record();
    assert_eq!(record.project_name(), Ok("ris".to_string()));
    assert_eq!(record.collector_name(), Ok("rrc00".to_string()));
    assert_eq!(record.router_name(), Ok(String::new()));
}

#[test]
fn name_with_invalid_encoding() {
    let mut raw = raw_record(RECORD_STATUS_VALID_RECORD);
    raw.router_name = vec![0xff, 0xfe, 0];
    let record = match Record::new(RecordPull { code: 1, record: Some(raw) }) {
        Ok(PulledRecord::Record(record)) => record,
        other => panic!("no record: {:?}", other),
    };
    assert_eq!(record.router_name(), Err(BgpStreamError::InvalidText));
    assert_eq!(record.project_name(), Ok("ris".to_string()));
}

#[test]
fn router_address() {
    let record = valid_record();
    assert_eq!(record.router_ip(), Ok(IpAddress::V4([203, 0, 113, 9])));
    let mut raw = raw_record(RECORD_STATUS_VALID_RECORD);
    raw.router_ip.version = 0;
    let record = match Record::new(RecordPull { code: 1, record: Some(raw) }) {
        Ok(PulledRecord::Record(record)) => record,
        other => panic!("no record: {:?}", other),
    };
    assert_eq!(record.router_ip(), Err(BgpStreamError::InvalidIpAddress));
}

#[test]
fn record_kind() {
    let mut record = valid_record();
    assert_eq!(record.is_update(), Ok(true));
    record.raw.kind = RECORD_TYPE_RIB;
    assert_eq!(record.is_update(), Ok(false));
    record.raw.kind = 2;
    assert_eq!(record.is_update(), Err(BgpStreamError::RecordCorrupted));
}

#[test]
fn elements_come_until_the_record_is_exhausted() {
    let mut record = valid_record();
    let pulled = ElementPull { code: 1, element: Some(rib_entry()) };
    let first = record.next_element(&pulled).unwrap().unwrap();
    assert!(matches!(first.e, ElementType::RIB(_)));
    assert_eq!(first.time, record.time());
    assert!(record.next_element(&pulled).unwrap().is_some());
    let end = ElementPull { code: 0, element: None };
    assert!(matches!(record.next_element(&end), Ok(None)));
    assert!(record.exhausted);
    assert!(matches!(record.next_element(&pulled), Ok(None)));
}

#[test]
fn an_error_ends_the_record() {
    let mut record = valid_record();
    let failed = ElementPull { code: -1, element: None };
    assert_eq!(record.next_element(&failed).err(), Some(BgpStreamError::GetNextElement));
    let pulled = ElementPull { code: 1, element: Some(rib_entry()) };
    assert!(matches!(record.next_element(&pulled), Ok(None)));
}
