//! The lookup engine: a read-only connection to libcangjie's database, and
//! the decoding of what a query hands back into Cangjie codes.

use vstd::prelude::*;
use rusqlite::types::ValueRef;
use rusqlite::{Connection, OpenFlags};
use smallvec::SmallVec;
use std::ops::Deref;

use crate::code::{CangjieCode, all_radical_codes, decode_codes};
use crate::radical::CangjieRadical;

verus! {

#[verifier::external_type_specification]
#[verifier::external_body]
pub struct ExConnection(Connection);

#[verifier::external_type_specification]
#[verifier::external_body]
pub struct ExError(rusqlite::Error);

/// Where libcangjie installs its database.
pub const DB_PATH: &'static str = "/usr/share/libcangjie/cangjie.db";

/// All codes of one character in one version, in the table's row order.
pub const LOOKUP_SQL: &'static str = "SELECT codes.code FROM chars JOIN codes ON chars.char_index = codes.char_index WHERE chars.chchar = ?1 AND codes.version = ?2";

/// Cangjie version.
#[derive(Debug, PartialEq, Eq, Structural, Clone, Copy, Hash)]
#[non_exhaustive]
pub enum CangjieVersion {
    V3,
    V5,
}

impl CangjieVersion {
    /// The number that the database stores for this version.
    pub open spec fn spec_number(self) -> i64 {
        match self {
            CangjieVersion::V3 => 3,
            CangjieVersion::V5 => 5,
        }
    }

    /// The number that the database stores for this version.
    pub fn number(self) -> (r: i64)
        ensures
            r == self.spec_number(),
    {
        match self {
            CangjieVersion::V3 => 3,
            CangjieVersion::V5 => 5,
        }
    }
}

/// Why the database could not be opened, as far as a caller may act on it.
#[derive(Debug, PartialEq, Eq, Structural, Clone, Copy, Hash)]
pub enum OpenFailure {
    /// The storage failed while reading (SQLite's `SQLITE_IOERR`).
    IoFailure,
    /// The file is missing or cannot be opened (`SQLITE_CANTOPEN`).
    NotFound,
    /// The file is a database, but damaged (`SQLITE_CORRUPT`).
    Corrupt,
    /// The file is not a database at all (`SQLITE_NOTADB`).
    WrongFormat,
}

/// The kind of failure that an SQLite extended result code reports; its low
/// byte is the primary result code.
pub open spec fn spec_open_failure(extended_code: i32) -> Option<OpenFailure> {
    let primary = extended_code % 256;
    if primary == 10 {
        Some(OpenFailure::IoFailure)
    } else if primary == 14 {
        Some(OpenFailure::NotFound)
    } else if primary == 11 {
        Some(OpenFailure::Corrupt)
    } else if primary == 26 {
        Some(OpenFailure::WrongFormat)
    } else {
        None
    }
}

/// Classifies an SQLite extended result code.
pub fn open_failure_of_code(extended_code: i32) -> (r: Option<OpenFailure>)
    requires
        extended_code >= 0,
    ensures
        r == spec_open_failure(extended_code),
{
    let primary = extended_code % 256;
    if primary == 10 {
        Some(OpenFailure::IoFailure)
    } else if primary == 14 {
        Some(OpenFailure::NotFound)
    } else if primary == 11 {
        Some(OpenFailure::Corrupt)
    } else if primary == 26 {
        Some(OpenFailure::WrongFormat)
    } else {
        None
    }
}

/// Error type for [`LibCangjieHowToType::new`].
#[derive(Debug)]
#[non_exhaustive]
pub enum NewError {
    /// Database error, with SQLite's extended result code where SQLite
    /// itself reported the failure.
    DBError { error: rusqlite::Error, extended_code: Option<i32> },
}

/// The kind of failure that an extended result code, where there is one,
/// reports.
pub open spec fn spec_failure_of(extended_code: Option<i32>) -> Option<OpenFailure> {
    match extended_code {
        Some(c) => if c >= 0 {
            spec_open_failure(c)
        } else {
            None
        },
        None => None,
    }
}

/// Error type for [`LibCangjieHowToType::how_to_type`].
#[derive(Debug)]
#[non_exhaustive]
pub enum HowToTypeError {
    /// Database error.
    DBError(rusqlite::Error),
    /// A row's code is not text made of radical codes: the table does not
    /// follow libcangjie's schema.
    InvalidCode,
}

/// Relies on `rusqlite::Error::sqlite_extended_error_code`: the extended
/// result code where SQLite itself reported the failure.
#[verifier::external_body]
fn sqlite_extended_code(e: &rusqlite::Error) -> (r: Option<i32>) {
    e.sqlite_extended_error_code()
}

impl NewError {
    /// Why the database could not be opened, where SQLite reported one of
    /// the failures a caller may act on.
    pub fn open_failure(&self) -> (r: Option<OpenFailure>)
        ensures
            r == (match self {
                NewError::DBError { extended_code, .. } => spec_failure_of(*extended_code),
            }),
    {
        match self {
            NewError::DBError { extended_code, .. } => match extended_code {
                Some(code) => {
                    if *code >= 0 {
                        open_failure_of_code(*code)
                    } else {
                        None
                    }
                },
                None => None,
            },
        }
    }
}

/// Relies on `Connection::open_with_flags`: opens the database at `path`
/// read-only, without SQLite's own mutex; what it gives depends on the disk.
#[verifier::external_body]
fn open_read_only(path: &str) -> (r: Result<Connection, rusqlite::Error>) {
    Connection::open_with_flags(
        path,
        OpenFlags::SQLITE_OPEN_READ_ONLY | OpenFlags::SQLITE_OPEN_NO_MUTEX,
    )
}

/// Relies on `Connection::prepare_cached`, `Statement::query_map` and
/// `Row::get_ref`: runs `sql` with `character` and `version` bound to its
/// two parameters and hands back the first column of each row, in the order
/// SQLite returns them, as its bytes where it is text and `None` where it is
/// not. What it gives depends on the disk.
#[verifier::external_body]
fn query_first_column(conn: &Connection, sql: &str, character: &str, version: i64) -> (r: Result<
    Vec<Option<Vec<u8>>>,
    rusqlite::Error,
>) {
    let mut stmt = conn.prepare_cached(sql)?;
    let rows = stmt.query_map(
        (character, version),
        |row| match row.get_ref(0)? {
            ValueRef::Text(t) => Ok(Some(t.to_vec())),
            _ => Ok(None),
        },
    )?;
    rows.collect()
}

/// A `SmallVec` of codes, kept inline when there is one; Verus sees only
/// what `code_seq` says of it.
#[verifier::external_body]
#[derive(Debug)]
pub struct CodeList {
    inner: SmallVec<[CangjieCode; 1]>,
}

/// The codes that a small vector holds, in order.
pub uninterp spec fn code_seq(v: CodeList) -> Seq<CangjieCode>;

/// Relies on `SmallVec::new`: a new vector is empty.
#[verifier::external_body]
fn code_list_new() -> (r: CodeList)
    ensures
        code_seq(r) == Seq::<CangjieCode>::empty(),
{
    CodeList { inner: SmallVec::new() }
}

/// Relies on `SmallVec::push`: appends one code at the end.
#[verifier::external_body]
fn code_list_push(v: &mut CodeList, c: CangjieCode)
    ensures
        code_seq(*final(v)) == code_seq(*old(v)).push(c),
{
    v.inner.push(c)
}

/// Relies on `SmallVec::as_slice`: a slice of the codes, in order.
#[verifier::external_body]
fn code_list_slice(v: &CodeList) -> (r: &[CangjieCode])
    ensures
        r@ == code_seq(*v),
{
    v.inner.as_slice()
}

impl View for CodeList {
    type V = Seq<CangjieCode>;

    closed spec fn view(&self) -> Seq<CangjieCode> {
        code_seq(*self)
    }
}

impl CodeList {
    /// The number of codes.
    pub fn len(&self) -> (r: usize)
        ensures
            r == self@.len(),
    {
        code_list_slice(self).len()
    }

    /// Whether there is no code.
    pub fn is_empty(&self) -> (r: bool)
        ensures
            r == (self@.len() == 0),
    {
        code_list_slice(self).len() == 0
    }

    /// The codes, in order, as a slice.
    pub fn as_slice(&self) -> (r: &[CangjieCode])
        ensures
            r@ == self@,
    {
        code_list_slice(self)
    }
}

impl Deref for CodeList {
    type Target = [CangjieCode];

    fn deref(&self) -> (r: &[CangjieCode])
        ensures
            r@ == self@,
    {
        code_list_slice(self)
    }
}

/// A row holds a code when its column is text made of radical codes.
pub open spec fn is_code_row(row: Option<Vec<u8>>) -> bool {
    row matches Some(text) && all_radical_codes(text@)
}

/// A code that some text of radical codes decodes to.
pub open spec fn is_decoded_code(code: CangjieCode) -> bool {
    exists|text: Seq<u8>| all_radical_codes(text) && code@ == decode_codes(text)
}

/// Decodes the rows of a lookup, one code per row, in order; fails with
/// [`HowToTypeError::InvalidCode`] exactly when some row holds no code.
#[verifier::loop_isolation(false)]
pub fn codes_from_rows(rows: &Vec<Option<Vec<u8>>>) -> (r: Result<CodeList, HowToTypeError>)
    ensures
        r is Ok <==> (forall|i: int| 0 <= i < rows@.len() ==> #[trigger] is_code_row(rows@[i])),
        r matches Err(e) ==> e is InvalidCode,
        r matches Ok(codes) ==> codes@.len() == rows@.len() && (forall|i: int|
            0 <= i < rows@.len() ==> (#[trigger] codes@[i])@ == decode_codes(rows@[i]->Some_0@)),
{
    let mut codes = code_list_new();
    let mut i: usize = 0;
    while i < rows.len()
        invariant
            i <= rows@.len(),
            codes@.len() == i,
            forall|j: int| 0 <= j < i ==> #[trigger] is_code_row(rows@[j]),
            forall|j: int| 0 <= j < i ==> (#[trigger] codes@[j])@ == decode_codes(rows@[j]->Some_0@),
        decreases rows@.len() - i,
    {
        match &rows[i] {
            Some(text) => {
                let mut k: usize = 0;
                while k < text.len()
                    invariant
                        k <= text@.len(),
                        forall|m: int| 0 <= m < k ==> crate::radical::is_radical_code(#[trigger] text@[m]),
                    decreases text@.len() - k,
                {
                    if CangjieRadical::try_from_code(text[k]).is_none() {
                        assert(!is_code_row(rows@[i as int]));
                        return Err(HowToTypeError::InvalidCode);
                    }
                    k = k + 1;
                }
                let code = CangjieCode::from_codes(text.as_slice());
                code_list_push(&mut codes, code);
            },
            None => {
                assert(!is_code_row(rows@[i as int]));
                return Err(HowToTypeError::InvalidCode);
            },
        }
        i = i + 1;
    }
    Ok(codes)
}

/// The entrypoint of the library: a read-only connection to libcangjie's
/// database.
pub struct LibCangjieHowToType {
    db_conn: Connection,
    path: Ghost<Option<Seq<char>>>,
}

impl LibCangjieHowToType {
    /// The path that the connection was opened at, where this library opened
    /// it.
    pub closed spec fn opened_path(&self) -> Option<Seq<char>> {
        self.path@
    }

    /// Opens libcangjie's database at [`DB_PATH`], read-only; fails with
    /// [`NewError::DBError`] where SQLite cannot open it, carrying SQLite's
    /// extended result code so that [`NewError::open_failure`] can tell the
    /// kind of failure apart.
    pub fn new() -> (r: Result<Self, NewError>)
        ensures
            r matches Ok(engine) ==> engine.opened_path() == Some(DB_PATH@),
    {
        match open_read_only(DB_PATH) {
            Ok(db_conn) => Ok(LibCangjieHowToType { db_conn, path: Ghost(Some(DB_PATH@)) }),
            Err(error) => {
                let extended_code = sqlite_extended_code(&error);
                Err(NewError::DBError { error, extended_code })
            },
        }
    }

    /// Uses `db_conn`, an open connection to a database with libcangjie's
    /// schema, in place of the installed one.
    pub fn from_connection(db_conn: Connection) -> (r: Self)
        ensures
            r.opened_path() is None,
    {
        LibCangjieHowToType { db_conn, path: Ghost(None) }
    }

    /// Queries how to type a character: every code that the database holds
    /// for it in `version`, in the table's row order. An empty vector means
    /// that it does not know how. The inline capacity of the list is not part
    /// of the stable API.
    pub fn how_to_type(&self, character: &str, version: CangjieVersion) -> (r: Result<
        CodeList,
        HowToTypeError,
    >)
        ensures
            r matches Ok(codes) ==> forall|i: int|
                0 <= i < codes@.len() ==> is_decoded_code(#[trigger] codes@[i]),
    {
        match query_first_column(&self.db_conn, LOOKUP_SQL, character, version.number()) {
            Ok(rows) => {
                let r = codes_from_rows(&rows);
                if let Ok(codes) = &r {
                    assert forall|i: int| 0 <= i < codes@.len() implies is_decoded_code(
                        #[trigger] codes@[i],
                    ) by {
                        assert(is_code_row(rows@[i]));
                        assert(codes@[i]@ == decode_codes(rows@[i]->Some_0@));
                    }
                }
                r
            },
            Err(e) => Err(HowToTypeError::DBError(e)),
        }
    }
}

} // verus!
