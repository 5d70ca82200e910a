use std::error::Error;

use libcangjie_howtotype::{CangjieCode, CangjieVersion, LibCangjieHowToType};

/// An in-memory database with libcangjie's schema and the rows these tests read.
fn sample_db() -> LibCangjieHowToType {
    let conn = rusqlite::Connection::open_in_memory().unwrap();
    conn.execute_batch(
        "CREATE TABLE chars (char_index INTEGER PRIMARY KEY, chchar TEXT);
         CREATE TABLE codes (char_index INTEGER, version INTEGER, code TEXT);
         INSERT INTO chars VALUES (1, '喵'), (2, '屬'), (3, '日');
         INSERT INTO codes VALUES (1, 3, 'rtw'), (1, 5, 'rtw'),
             (2, 3, 'syyi'), (2, 5, 'sewi'), (3, 3, 'a'), (3, 5, 'a');",
    )
    .unwrap();
    LibCangjieHowToType::from_connection(conn)
}

#[test]
fn meow() -> Result<(), Box<dyn Error>> {
    let cangjie = sample_db();

    let how_to_type = cangjie.how_to_type("喵", CangjieVersion::V3).map_err(|e| format!("{e:?}"))?;
    assert_eq!(*how_to_type, [CangjieCode::from_radicals("口廿田")]);

    Ok(())
}
