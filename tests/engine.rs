use libcangjie_howtotype::engine::{codes_from_rows, open_failure_of_code};
use libcangjie_howtotype::{CangjieCode, CangjieVersion, HowToTypeError, OpenFailure};

#[test]
fn version_numbers() {
    assert_eq!(CangjieVersion::V3.number(), 3);
    assert_eq!(CangjieVersion::V5.number(), 5);
}

#[test]
fn rows_decode_to_codes() {
    let rows = vec![Some(b"rtw".to_vec())];
    let codes = codes_from_rows(&rows).unwrap();
    assert_eq!(*codes, [CangjieCode::from_radicals("口廿田")]);
    assert_eq!(codes.len(), 1);
    assert_eq!(codes[0].codes().to_string(), "rtw");
}

#[test]
fn rows_of_each_version() {
    let v3 = codes_from_rows(&vec![Some(b"syyi".to_vec())]).unwrap();
    assert_eq!(*v3, [CangjieCode::from_radicals("尸卜卜戈")]);
    let v5 = codes_from_rows(&vec![Some(b"sewi".to_vec())]).unwrap();
    assert_eq!(*v5, [CangjieCode::from_radicals("尸水田戈")]);
    assert_ne!(v3.as_slice(), v5.as_slice());
}

#[test]
fn rows_keep_their_order() {
    let rows = vec![Some(b"b".to_vec()), Some(b"a".to_vec()), Some(b"ab".to_vec())];
    let codes = codes_from_rows(&rows).unwrap();
    let texts: Vec<String> = codes.iter().map(|c| c.codes().to_string()).collect();
    assert_eq!(texts, vec!["b", "a", "ab"]);
}

#[test]
fn no_rows_is_no_code() {
    let codes = codes_from_rows(&Vec::new()).unwrap();
    assert!(codes.is_empty());
}

#[test]
fn rows_that_are_not_codes_are_rejected() {
    assert!(matches!(codes_from_rows(&vec![None]), Err(HowToTypeError::InvalidCode)));
    assert!(matches!(
        codes_from_rows(&vec![Some(b"rtw".to_vec()), Some(b"r0w".to_vec())]),
        Err(HowToTypeError::InvalidCode)
    ));
    assert!(matches!(
        codes_from_rows(&vec![Some(b"RTW".to_vec())]),
        Err(HowToTypeError::InvalidCode)
    ));
}

#[test]
fn open_failures_are_classified() {
    assert_eq!(open_failure_of_code(10), Some(OpenFailure::IoFailure));
    assert_eq!(open_failure_of_code(10 | (1 << 8)), Some(OpenFailure::IoFailure));
    assert_eq!(open_failure_of_code(14), Some(OpenFailure::NotFound));
    assert_eq!(open_failure_of_code(11), Some(OpenFailure::Corrupt));
    assert_eq!(open_failure_of_code(26), Some(OpenFailure::WrongFormat));
    assert_eq!(open_failure_of_code(1), None);
    assert_eq!(open_failure_of_code(0), None);
}

fn engine_with(rows: &str) -> libcangjie_howtotype::LibCangjieHowToType {
    let conn = rusqlite::Connection::open_in_memory().unwrap();
    conn.execute_batch(
        "CREATE TABLE chars (char_index INTEGER PRIMARY KEY, chchar TEXT);
         CREATE TABLE codes (char_index INTEGER, version INTEGER, code);",
    )
    .unwrap();
    conn.execute_batch(rows).unwrap();
    libcangjie_howtotype::LibCangjieHowToType::from_connection(conn)
}

#[test]
fn query_returns_every_matching_row_in_order() {
    let engine = engine_with(
        "INSERT INTO chars VALUES (1, '日'), (2, '月');
         INSERT INTO codes VALUES (1, 3, 'a'), (1, 3, 'ab'), (1, 5, 'z'), (2, 3, 'b');",
    );
    let codes = engine.how_to_type("日", CangjieVersion::V3).unwrap();
    let texts: Vec<String> = codes.iter().map(|c| c.codes().to_string()).collect();
    assert_eq!(texts, vec!["a", "ab"]);
    let v5 = engine.how_to_type("日", CangjieVersion::V5).unwrap();
    assert_eq!(*v5, [CangjieCode::from_codes(b"z")]);
}

#[test]
fn query_of_unknown_character_is_empty() {
    let engine = engine_with(
        "INSERT INTO chars VALUES (1, '日');
         INSERT INTO codes VALUES (1, 3, 'a');",
    );
    assert!(engine.how_to_type("😀", CangjieVersion::V3).unwrap().is_empty());
    assert!(engine.how_to_type("日日", CangjieVersion::V3).unwrap().is_empty());
}

#[test]
fn query_rejects_a_code_that_is_not_text() {
    let engine = engine_with(
        "INSERT INTO chars VALUES (1, '日');
         INSERT INTO codes VALUES (1, 3, 42);",
    );
    assert!(matches!(
        engine.how_to_type("日", CangjieVersion::V3),
        Err(HowToTypeError::InvalidCode)
    ));
}

#[test]
fn query_on_a_database_without_the_tables_fails() {
    let conn = rusqlite::Connection::open_in_memory().unwrap();
    let engine = libcangjie_howtotype::LibCangjieHowToType::from_connection(conn);
    assert!(matches!(
        engine.how_to_type("日", CangjieVersion::V3),
        Err(HowToTypeError::DBError(_))
    ));
}

fn open_error(extended_code: Option<i32>) -> libcangjie_howtotype::NewError {
    libcangjie_howtotype::NewError::DBError {
        error: rusqlite::Error::QueryReturnedNoRows,
        extended_code,
    }
}

#[test]
fn open_errors_tell_their_kind() {
    assert_eq!(open_error(Some(10)).open_failure(), Some(OpenFailure::IoFailure));
    assert_eq!(open_error(Some(14)).open_failure(), Some(OpenFailure::NotFound));
    assert_eq!(open_error(Some(11)).open_failure(), Some(OpenFailure::Corrupt));
    assert_eq!(open_error(Some(26)).open_failure(), Some(OpenFailure::WrongFormat));
    assert_eq!(open_error(Some(5)).open_failure(), None);
    assert_eq!(open_error(Some(-1)).open_failure(), None);
    assert_eq!(open_error(None).open_failure(), None);
}
