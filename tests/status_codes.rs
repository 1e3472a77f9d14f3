use faster_api::status::{length_or_missing, presence, value_ready, Status};

#[test]
fn decodes_every_engine_status() {
    assert_eq!(Status::from_code(0), Status::Success);
    assert_eq!(Status::from_code(1), Status::Pending);
    assert_eq!(Status::from_code(2), Status::NotFound);
    assert_eq!(Status::from_code(3), Status::OutOfLogSpace);
    assert_eq!(Status::from_code(4), Status::IoError);
    assert_eq!(Status::from_code(5), Status::Corruption);
    assert_eq!(Status::from_code(6), Status::Aborted);
    assert_eq!(Status::from_code(7), Status::Unknown(7));
    assert_eq!(Status::from_code(255), Status::Unknown(255));
}

#[test]
fn code_round_trips() {
    for c in 0..=255u8 {
        assert_eq!(Status::from_code(c).code(), c);
    }
}

#[test]
fn presence_is_one_only_when_found() {
    assert_eq!(presence(0), 1);
    assert_eq!(presence(1), 0);
    assert_eq!(presence(2), 0);
    assert_eq!(presence(3), 0);
}

#[test]
fn length_reported_only_when_found() {
    assert_eq!(length_or_missing(0, 0), 0);
    assert_eq!(length_or_missing(0, 4096), 4096);
    assert_eq!(length_or_missing(2, 4096), -1);
    assert_eq!(length_or_missing(1, 10), -1);
    assert_eq!(length_or_missing(0, i64::MAX as usize), i64::MAX);
}

#[test]
fn only_a_found_read_has_a_value_ready() {
    assert!(value_ready(0));
    assert!(!value_ready(1));
    assert!(!value_ready(2));
    assert!(!value_ready(3));
}
