use libsqlite3_turso::codes::{
    compileoption_get, compileoption_used, errstr, is_aligned, libversion, libversion_number, sourceid,
    SqliteError, SQLITE_BUSY, SQLITE_ERROR, SQLITE_FLOAT, SQLITE_INTEGER, SQLITE_MISUSE,
    SQLITE_NULL, SQLITE_OK, SQLITE_RANGE, SQLITE_TEXT,
};
use libsqlite3_turso::auth::{EnvVarStrategy, GlobeStrategy};
use libsqlite3_turso::errors::ErrorStack;
use libsqlite3_turso::value::Value;

#[test]
fn value_type_codes() {
    assert_eq!(Value::Integer(3).type_code(), SQLITE_INTEGER);
    assert_eq!(Value::Real(1.5f64.to_bits()).type_code(), SQLITE_FLOAT);
    assert_eq!(Value::Text("x".to_string()).type_code(), SQLITE_TEXT);
    assert_eq!(Value::Null.type_code(), SQLITE_NULL);
}

#[test]
fn value_byte_lengths() {
    assert_eq!(Value::Text("héllo".to_string()).byte_len(), 6);
    assert_eq!(Value::Integer(1).byte_len(), 8);
    assert_eq!(Value::Real(0).byte_len(), 8);
    assert_eq!(Value::Null.byte_len(), 0);
}

#[test]
fn value_readouts() {
    assert_eq!(Value::Integer(-42).int64_value(), Some(-42));
    assert_eq!(Value::Text("12".to_string()).int64_value(), Some(0));
    assert_eq!(Value::Null.int64_value(), Some(0));
    assert_eq!(Value::Real(2.0f64.to_bits()).int64_value(), None);
    assert_eq!(Value::Integer(-42).text_value(), Some("-42".to_string()));
    assert_eq!(Value::Null.text_value(), Some("NULL".to_string()));
    assert_eq!(Value::Text("abc".to_string()).text_value(), Some("abc".to_string()));
}

#[test]
fn error_texts() {
    assert_eq!(errstr(SQLITE_OK), "Successful result");
    assert_eq!(errstr(SQLITE_ERROR), "SQL error or missing database");
    assert_eq!(errstr(SQLITE_MISUSE), "Library used incorrectly");
    assert_eq!(errstr(SQLITE_RANGE), "2nd parameter to sqlite3_bind out of range");
    assert_eq!(errstr(SQLITE_BUSY), "The database file is locked");
    assert_eq!(errstr(999), "Unknown error code");
}

#[test]
fn error_code_defaults_to_error() {
    let e = SqliteError::new("boom".to_string(), None);
    assert_eq!(e.code, SQLITE_ERROR);
    let e = SqliteError::new("busy".to_string(), Some(SQLITE_BUSY));
    assert_eq!(e.code, SQLITE_BUSY);
    assert_eq!(e.message, "busy");
}

#[test]
fn version_information() {
    assert_eq!(libversion_number(), 3037000);
    assert_eq!(libversion(), "3.37.0");
    assert_eq!(sourceid(), "2022-01-06 13:25:4 libsqlite3_turso");
}

#[test]
fn compile_options() {
    assert_eq!(compileoption_used("ENABLE_COLUMN_METADATA"), 1);
    assert_eq!(compileoption_used("ENABLE_FTS5"), 0);
    assert_eq!(compileoption_get(0), Some("ENABLE_COLUMN_METADATA"));
    assert_eq!(compileoption_get(1), None);
}

#[test]
fn credential_strategies() {
    assert_eq!(GlobeStrategy::db_key("shop.db"), "shop");
    assert_eq!(GlobeStrategy::db_key("plain"), "plain");
    assert_eq!(GlobeStrategy::auth_url("https://ds.example"), "https://ds.example/db/auth");
    let c = EnvVarStrategy::config_from(Some("h.example".to_string()), Some("tok".to_string()));
    let c = c.ok().unwrap();
    assert_eq!(c.db_url, "h.example");
    assert_eq!(c.db_token, "tok");
    assert_eq!(
        EnvVarStrategy::config_from(None, Some("t".to_string())).err().unwrap(),
        "TURSO_DB_URL environment variable not set"
    );
    assert_eq!(
        EnvVarStrategy::config_from(Some("u".to_string()), None).err().unwrap(),
        "TURSO_DB_TOKEN environment variable not set"
    );
}

#[test]
fn pointer_alignment() {
    assert!(is_aligned(16, 8));
    assert!(!is_aligned(12, 8));
    assert!(!is_aligned(0, 1));
    assert!(is_aligned(3, 1));
}

#[test]
fn error_text_and_stack() {
    let e = SqliteError::new("no such table".to_string(), Some(SQLITE_ERROR));
    assert_eq!(e.to_text(), "SQLite error (code 1): no such table");
    let mut stack = ErrorStack::new();
    assert!(stack.get_latest_error().is_none());
    assert_eq!(stack.push_error(("first".to_string(), SQLITE_ERROR)), SQLITE_ERROR);
    assert_eq!(stack.push_error(("second".to_string(), SQLITE_BUSY)), SQLITE_BUSY);
    let latest = stack.get_latest_error().unwrap();
    assert_eq!(latest.0, "second");
    assert_eq!(latest.1, SQLITE_BUSY);
}
