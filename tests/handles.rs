use libsqlite3_turso::codes::{
    SqliteError, SQLITE_BUSY, SQLITE_CANTOPEN, SQLITE_DELETE, SQLITE_ERROR, SQLITE_INSERT,
    SQLITE_MISUSE, SQLITE_OK, SQLITE_UPDATE,
};
use libsqlite3_turso::database::{
    get_execution_result, reject_in_memory, reset_txn_on_db, ActiveStrategy, SQLite3, TursoConfig,
};
use libsqlite3_turso::protocol::{
    PipelineStep, QueryResult, RemoteSQLiteResult, RemoteSQliteResultType, RemoteSqliteResponse,
};
use libsqlite3_turso::sql::{classify_leading_keyword, Keyword};

fn config() -> TursoConfig {
    TursoConfig { db_url: "db.example".to_string(), db_token: "tok".to_string() }
}

fn handle() -> SQLite3<u32> {
    SQLite3::new(config(), ActiveStrategy::Http)
}

fn write_response(rowid: Option<&str>, written: Option<u64>) -> RemoteSqliteResponse {
    RemoteSqliteResponse {
        baton: None,
        results: vec![RemoteSQliteResultType {
            response: RemoteSQLiteResult::Execute {
                result: QueryResult {
                    cols: vec![],
                    rows: vec![],
                    last_insert_rowid: rowid.map(|s| s.to_string()),
                    rows_written: written,
                },
            },
        }],
    }
}

fn baton_response(baton: &str) -> RemoteSqliteResponse {
    RemoteSqliteResponse { baton: Some(baton.to_string()), results: vec![] }
}

fn begin(db: &mut SQLite3<u32>) {
    let req = match db.begin_request("BEGIN") {
        Ok(r) => r,
        Err(_) => panic!("begin refused"),
    };
    assert_eq!(req.requests.len(), 1);
    assert!(req.baton.is_none());
    assert!(matches!(db.finish_begin(Ok(baton_response("b-1"))), Ok(c) if c == SQLITE_OK));
}

#[test]
fn open_refuses_in_memory_databases() {
    match SQLite3::<u32>::open(":memory:", Ok(config()), ActiveStrategy::Http) {
        Ok(_) => panic!("in-memory database opened"),
        Err(e) => {
            assert_eq!(e.code, SQLITE_CANTOPEN);
            assert_eq!(e.message, "In-memory databases are not supported");
        }
    }
    match SQLite3::<u32>::open("file::memory:?cache=shared", Ok(config()), ActiveStrategy::Http) {
        Ok(_) => panic!("in-memory database opened"),
        Err(e) => assert_eq!(e.code, SQLITE_CANTOPEN),
    }
}

#[test]
fn open_without_credentials_cannot_open() {
    match SQLite3::<u32>::open("shop.db", Err("no token".to_string()), ActiveStrategy::Http) {
        Ok(_) => panic!("opened without credentials"),
        Err(e) => {
            assert_eq!(e.code, SQLITE_CANTOPEN);
            assert_eq!(e.message, "no token");
        }
    }
    match SQLite3::<u32>::open("shop.db", Ok(config()), ActiveStrategy::Websocket) {
        Ok(db) => {
            assert_eq!(db.get_autocommit(), 1);
            assert_eq!(db.strategy(), ActiveStrategy::Websocket);
            assert_eq!(db.config().db_url, "db.example");
        }
        Err(_) => panic!("open failed"),
    }
}

#[test]
fn write_updates_changes_and_rowid() {
    let mut db = handle();
    assert_eq!(db.changes(), 0);
    assert_eq!(db.last_insert_rowid(), 0);
    let resp = write_response(Some("42"), Some(3));
    assert!(get_execution_result(&mut db, &resp).is_ok());
    assert_eq!(db.changes(), 3);
    assert_eq!(db.last_insert_rowid(), 42);
    let resp = write_response(Some("not a number"), Some(1));
    assert!(get_execution_result(&mut db, &resp).is_ok());
    assert_eq!(db.last_insert_rowid(), 0);
    assert_eq!(db.changes(), 1);
    let resp = write_response(Some("7"), Some(2));
    assert!(get_execution_result(&mut db, &resp).is_ok());
    assert_eq!(db.last_insert_rowid(), 7);
    let resp = write_response(None, None);
    assert!(get_execution_result(&mut db, &resp).is_ok());
    assert_eq!(db.last_insert_rowid(), 0);
    assert_eq!(db.changes(), 0);
}

#[test]
fn response_errors_are_reported() {
    let mut db = handle();
    let empty = RemoteSqliteResponse { baton: None, results: vec![] };
    match get_execution_result(&mut db, &empty) {
        Ok(_) => panic!("no results accepted"),
        Err(e) => assert_eq!(e.message, "No results returned from remote SQLite"),
    }
    let closed = RemoteSqliteResponse {
        baton: None,
        results: vec![RemoteSQliteResultType { response: RemoteSQLiteResult::Close }],
    };
    match get_execution_result(&mut db, &closed) {
        Ok(_) => panic!("close accepted"),
        Err(e) => {
            assert_eq!(e.code, SQLITE_ERROR);
            assert_eq!(e.message, "Remote SQLite closed the connection unexpectedly");
        }
    }
}

#[test]
fn autocommit_follows_the_baton() {
    let mut db = handle();
    assert_eq!(db.get_autocommit(), 1);
    begin(&mut db);
    assert_eq!(db.get_autocommit(), 0);
    assert_eq!(db.transaction_baton().unwrap(), "b-1");
    assert_eq!(reset_txn_on_db(&mut db), SQLITE_OK);
    assert_eq!(db.get_autocommit(), 1);
}

#[test]
fn begin_then_rollback_stays_local() {
    let mut db = handle();
    assert_eq!(classify_leading_keyword("BEGIN"), Keyword::Begin);
    begin(&mut db);
    assert_eq!(classify_leading_keyword("ROLLBACK"), Keyword::Rollback);
    // A rollback is a local reset: it builds no request at all.
    assert_eq!(reset_txn_on_db(&mut db), SQLITE_OK);
    assert_eq!(db.get_autocommit(), 1);
    assert!(!db.has_began_transaction());
}

#[test]
fn begin_twice_is_busy() {
    let mut db = handle();
    begin(&mut db);
    match db.begin_request("BEGIN") {
        Ok(_) => panic!("second begin accepted"),
        Err(e) => {
            assert_eq!(e.code, SQLITE_BUSY);
            assert_eq!(e.message, "A transaction is already active.");
        }
    }
}

#[test]
fn begin_without_baton_fails() {
    let mut db = handle();
    let no_baton = RemoteSqliteResponse { baton: None, results: vec![] };
    assert!(matches!(
        db.finish_begin(Ok(no_baton)),
        Err(e) if e.code == SQLITE_ERROR && e.message == "Failed to get transaction baton"
    ));
    assert_eq!(db.get_autocommit(), 1);
    let failed = db.finish_begin(Err(SqliteError::new("timeout".to_string(), None)));
    assert!(matches!(failed, Err(e) if e.message == "Failed to get transaction baton: timeout"));
}

#[test]
fn commit_sends_on_the_baton_and_closes() {
    let mut db = handle();
    match db.commit_request("COMMIT") {
        Ok(_) => panic!("commit without transaction accepted"),
        Err(e) => {
            assert_eq!(e.code, SQLITE_ERROR);
            assert_eq!(e.message, "No transaction is currently active.");
        }
    }
    begin(&mut db);
    let req = match db.commit_request("COMMIT") {
        Ok(r) => r,
        Err(_) => panic!("commit refused"),
    };
    assert_eq!(req.baton.as_deref(), Some("b-1"));
    assert_eq!(req.requests.len(), 1);
    assert!(matches!(&req.requests[0], PipelineStep::Execute { stmt } if stmt.sql == "COMMIT"));
    let failed = db.finish_commit(Err(SqliteError::new("lost".to_string(), None)));
    assert!(failed.is_err());
    assert_eq!(db.get_autocommit(), 0);
    assert!(db.finish_commit(Ok(write_response(None, None))).is_ok());
    assert_eq!(db.get_autocommit(), 1);
}

#[test]
fn requests_close_outside_a_transaction() {
    let mut db = handle();
    let req = db.execute_request("SELECT 1", vec![]);
    assert_eq!(req.requests.len(), 2);
    assert!(matches!(req.requests[1], PipelineStep::Close));
    assert!(req.baton.is_none());
    begin(&mut db);
    let req = db.execute_request("SELECT 1", vec![]);
    assert_eq!(req.requests.len(), 1);
    assert_eq!(req.baton.as_deref(), Some("b-1"));
}

#[test]
fn new_baton_replaces_the_open_one() {
    let mut db = handle();
    begin(&mut db);
    let mut resp = write_response(None, None);
    resp.baton = Some("b-2".to_string());
    assert!(get_execution_result(&mut db, &resp).is_ok());
    assert_eq!(db.transaction_baton().unwrap(), "b-2");
}

#[test]
fn baton_outside_a_transaction_is_kept() {
    let mut db = handle();
    let mut resp = write_response(None, None);
    resp.baton = Some("b-9".to_string());
    assert!(get_execution_result(&mut db, &resp).is_ok());
    assert_eq!(db.transaction_baton().unwrap(), "b-9");
    assert!(db.has_began_transaction());
    assert_eq!(db.get_autocommit(), 0);
}

#[test]
fn in_memory_names_are_refused_before_credentials() {
    match reject_in_memory(":memory:") {
        Ok(_) => panic!("in-memory name accepted"),
        Err(e) => {
            assert_eq!(e.code, SQLITE_CANTOPEN);
            assert_eq!(e.message, "In-memory databases are not supported");
        }
    }
    assert!(reject_in_memory("shop.db").is_ok());
}

#[test]
fn hooks_fill_their_slots() {
    let mut db = handle();
    assert_eq!(db.register_hook(SQLITE_INSERT, Some(1)), SQLITE_OK);
    assert_eq!(db.register_hook(SQLITE_UPDATE, Some(2)), SQLITE_OK);
    assert_eq!(db.register_hook(SQLITE_DELETE, Some(3)), SQLITE_OK);
    assert_eq!(db.register_hook(99, Some(4)), SQLITE_MISUSE);
    assert_eq!(db.hook(SQLITE_INSERT), Some(&1));
    assert_eq!(db.hook(SQLITE_UPDATE), Some(&2));
    assert_eq!(db.hook(SQLITE_DELETE), Some(&3));
    assert_eq!(db.hook(99), None);
    assert_eq!(db.register_hook(SQLITE_UPDATE, None), SQLITE_OK);
    assert_eq!(db.hook(SQLITE_UPDATE), None);
}

#[test]
fn websocket_falls_back_to_http() {
    let mut db = SQLite3::<u32>::new(config(), ActiveStrategy::Websocket);
    db.after_websocket_send(false);
    assert_eq!(db.strategy(), ActiveStrategy::Websocket);
    db.after_websocket_send(true);
    assert_eq!(db.strategy(), ActiveStrategy::Http);
    db.after_websocket_send(false);
    assert_eq!(db.strategy(), ActiveStrategy::Http);
}

#[test]
fn opening_a_transaction_moves_to_http() {
    let mut db = SQLite3::<u32>::new(config(), ActiveStrategy::Websocket);
    begin(&mut db);
    assert_eq!(db.strategy(), ActiveStrategy::Http);
}
