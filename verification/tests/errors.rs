use rust_csv::ApplicationError;
use rust_csv::ErrorKind;
use rust_csv::Position;

fn place(byte: u64, line: u64, record: u64) -> Position {
    let mut p = Position::new();
    p.set_byte(byte).set_record(record);
    p.set_line(line).unwrap();
    p
}

#[test]
fn every_error_names_its_kind() {
    let p = place(4, 2, 1);
    assert_eq!(ApplicationError::Io { message: "x".to_string() }.kind(), ErrorKind::Io);
    assert_eq!(ApplicationError::Encoding { position: p, field: 0 }.kind(), ErrorKind::Encoding);
    assert_eq!(
        ApplicationError::FieldCountMismatch { start: Some(p), expected: 1, found: 2 }.kind(),
        ErrorKind::FieldCountMismatch
    );
    assert_eq!(ApplicationError::InvalidPosition { line: 0 }.kind(), ErrorKind::InvalidPosition);
    assert_eq!(
        ApplicationError::IndexOutOfRange { index: 1, len: 0 }.kind(),
        ErrorKind::IndexOutOfRange
    );
    assert_eq!(ApplicationError::InvalidArgument { count: -1 }.kind(), ErrorKind::InvalidArgument);
}

#[test]
fn io_message_is_passed_on() {
    let e = ApplicationError::Io { message: "disk on fire".to_string() };
    assert_eq!(e.message(), "disk on fire");
}

#[test]
fn encoding_message_names_place_and_field() {
    let e = ApplicationError::Encoding { position: place(14, 3, 2), field: 10 };
    assert_eq!(e.message(), "record 2 (line: 3, byte: 14): field 10 is not valid UTF-8");
}

#[test]
fn width_message_names_both_widths() {
    let e = ApplicationError::FieldCountMismatch {
        start: Some(place(4, 2, 1)),
        expected: 2,
        found: 3,
    };
    assert_eq!(
        e.message(),
        "record 1 (line: 2, byte: 4): found record with 3 fields, but the previous record has 2 fields"
    );
    let e = ApplicationError::FieldCountMismatch { start: None, expected: 12, found: 0 };
    assert_eq!(
        e.message(),
        "found record with 0 fields, but the previous record has 12 fields"
    );
}

#[test]
fn line_message_names_the_line() {
    let e = ApplicationError::InvalidPosition { line: 0 };
    assert_eq!(e.message(), "line number 0 is less than 1");
}

#[test]
fn index_message_keeps_the_sign() {
    let e = ApplicationError::IndexOutOfRange { index: -4, len: 3 };
    assert_eq!(e.message(), "index -4 is out of range for a record of 3 fields");
    let e = ApplicationError::IndexOutOfRange { index: 7, len: 0 };
    assert_eq!(e.message(), "index 7 is out of range for a record of 0 fields");
    let e = ApplicationError::IndexOutOfRange { index: i64::MIN, len: 1 };
    assert_eq!(
        e.message(),
        "index -9223372036854775808 is out of range for a record of 1 fields"
    );
}

#[test]
fn count_message_names_the_count() {
    let e = ApplicationError::InvalidArgument { count: -25 };
    assert_eq!(e.message(), "repeat count -25 is negative");
}
