//! Result codes, column type codes, hook operation codes, the error type
//! carried through the library, and the version information reported to
//! callers.
use vstd::prelude::*;
use crate::text::same_text;
use crate::value::{decimal, i64_text};
use vstd::string::StringExecFns;

verus! {

pub const SQLITE_OK: i32 = 0;

pub const SQLITE_ERROR: i32 = 1;

pub const SQLITE_BUSY: i32 = 5;

pub const SQLITE_CANTOPEN: i32 = 14;

pub const SQLITE_MISUSE: i32 = 21;

pub const SQLITE_RANGE: i32 = 25;

pub const SQLITE_ROW: i32 = 100;

pub const SQLITE_DONE: i32 = 101;

pub const SQLITE_INTEGER: i32 = 1;

pub const SQLITE_FLOAT: i32 = 2;

pub const SQLITE_TEXT: i32 = 3;

pub const SQLITE_NULL: i32 = 5;

pub const SQLITE_DELETE: i32 = 9;

pub const SQLITE_INSERT: i32 = 18;

pub const SQLITE_UPDATE: i32 = 23;

pub const SQLITE_VERSION_NUMBER: i32 = 3037000;

/// An error with the message shown to the caller and the result code returned.
pub struct SqliteError {
    pub message: String,
    pub code: i32,
}

impl SqliteError {
    /// Builds an error; a missing code defaults to `SQLITE_ERROR`.
    pub fn new(message: String, code: Option<i32>) -> (r: SqliteError)
        ensures
            r.message == message,
            r.code == match code {
                Some(c) => c,
                None => SQLITE_ERROR,
            },
    {
        let code = match code {
            Some(c) => c,
            None => SQLITE_ERROR,
        };
        SqliteError { message, code }
    }

    /// Builds an error from a literal message.
    pub fn from_str(message: &str, code: i32) -> (r: SqliteError)
        ensures
            r.message@ == message@,
            r.code == code,
    {
        SqliteError { message: String::from_str(message), code }
    }

    /// `SQLite error (code <code>): <message>`
    pub fn to_text(&self) -> (r: String)
        ensures
            r@ == "SQLite error (code "@ + decimal(self.code as int) + "): "@ + self.message@,
    {
        String::from_str("SQLite error (code ").concat(i64_text(self.code as i64).as_str()).concat(
            "): ",
        ).concat(self.message.as_str())
    }
}

/// The text that `errstr` gives for a result code.
pub open spec fn errstr_text(code: i32) -> Seq<char> {
    if code == SQLITE_OK {
        "Successful result"@
    } else if code == SQLITE_ERROR {
        "SQL error or missing database"@
    } else if code == SQLITE_MISUSE {
        "Library used incorrectly"@
    } else if code == SQLITE_RANGE {
        "2nd parameter to sqlite3_bind out of range"@
    } else if code == SQLITE_BUSY {
        "The database file is locked"@
    } else {
        "Unknown error code"@
    }
}

/// English description of a result code.
pub fn errstr(code: i32) -> (r: &'static str)
    ensures
        r@ == errstr_text(code),
{
    if code == SQLITE_OK {
        "Successful result"
    } else if code == SQLITE_ERROR {
        "SQL error or missing database"
    } else if code == SQLITE_MISUSE {
        "Library used incorrectly"
    } else if code == SQLITE_RANGE {
        "2nd parameter to sqlite3_bind out of range"
    } else if code == SQLITE_BUSY {
        "The database file is locked"
    } else {
        "Unknown error code"
    }
}

/// The reported library version as a number.
pub fn libversion_number() -> (r: i32)
    ensures
        r == 3037000,
{
    SQLITE_VERSION_NUMBER
}

/// The reported library version as text.
pub fn libversion() -> (r: &'static str)
    ensures
        r@ == "3.37.0"@,
{
    "3.37.0"
}

/// The reported source identifier.
pub fn sourceid() -> (r: &'static str)
    ensures
        r@ == "2022-01-06 13:25:4 libsqlite3_turso"@,
{
    "2022-01-06 13:25:4 libsqlite3_turso"
}

/// Whether the library was built with the named option; only column
/// metadata is reported.
pub fn compileoption_used(name: &str) -> (r: i32)
    ensures
        r == (if name@ == "ENABLE_COLUMN_METADATA"@ {
            1i32
        } else {
            0i32
        }),
{
    if same_text(name, "ENABLE_COLUMN_METADATA") {
        1
    } else {
        0
    }
}

/// The `n`-th compile option; there is one.
pub fn compileoption_get(n: i32) -> (r: Option<&'static str>)
    ensures
        n == 0 ==> (r matches Some(o) && o@ == "ENABLE_COLUMN_METADATA"@),
        n != 0 ==> r is None,
{
    if n == 0 {
        Some("ENABLE_COLUMN_METADATA")
    } else {
        None
    }
}

/// A foreign pointer, given by its address, may be dereferenced as a value
/// of alignment `align`: it is not null and is aligned.
pub fn is_aligned(addr: usize, align: usize) -> (r: bool)
    requires
        align > 0,
    ensures
        r == (addr != 0 && addr % align == 0),
{
    addr != 0 && addr % align == 0
}

} // verus!
