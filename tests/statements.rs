use libsqlite3_turso::codes::{
    SqliteError, SQLITE_DONE, SQLITE_ERROR, SQLITE_INTEGER, SQLITE_MISUSE, SQLITE_NULL, SQLITE_OK,
    SQLITE_RANGE, SQLITE_ROW,
};
use libsqlite3_turso::database::{ActiveStrategy, SQLite3, TursoConfig};
use libsqlite3_turso::protocol::{
    ArgValue, CellJson, QueryResult, RemoteCol, RemoteRow, RemoteSQLiteResult,
    RemoteSQliteResultType, RemoteSqliteResponse,
};
use libsqlite3_turso::statement::{
    convert_params_to_json, iterate_rows, ExecutionState, SQLite3PreparedStmt, StepAction,
};
use libsqlite3_turso::value::Value;

fn handle() -> SQLite3<()> {
    SQLite3::new(
        TursoConfig { db_url: "db.example".to_string(), db_token: "tok".to_string() },
        ActiveStrategy::Http,
    )
}

fn int_cell(v: &str) -> RemoteRow {
    RemoteRow { kind: "integer".to_string(), value: CellJson::Str(v.to_string()) }
}

fn select_response(rows: Vec<Vec<RemoteRow>>) -> RemoteSqliteResponse {
    RemoteSqliteResponse {
        baton: None,
        results: vec![RemoteSQliteResultType {
            response: RemoteSQLiteResult::Execute {
                result: QueryResult {
                    cols: vec![RemoteCol { name: "n".to_string() }],
                    rows,
                    last_insert_rowid: None,
                    rows_written: None,
                },
            },
        }],
    }
}

fn execute(stmt: &mut SQLite3PreparedStmt, db: &mut SQLite3<()>, resp: RemoteSqliteResponse) -> i32 {
    assert!(matches!(stmt.begin_step(), StepAction::Execute));
    match stmt.finish_execute(db, Ok(resp)) {
        Ok(code) => code,
        Err(_) => panic!("execution failed"),
    }
}

#[test]
fn prepare_counts_parameters_and_starts_prepared() {
    let s = SQLite3PreparedStmt::new("INSERT INTO t VALUES (?, :b, @c)");
    assert_eq!(s.bind_parameter_count(), 3);
    assert!(matches!(s.execution_state(), ExecutionState::Prepared));
    assert!(s.param(1).is_none());
}

#[test]
fn prepare_scenario_select_with_two_parameters() {
    let s = match SQLite3PreparedStmt::prepare("SELECT ?1, ?2 FROM t", 0) {
        Ok(s) => s,
        Err(_) => panic!("prepare failed"),
    };
    assert_eq!(s.bind_parameter_count(), 2);
    assert_eq!(s.column_count(), 2);
    assert_eq!(s.column_name(0).unwrap(), "?1");
    assert_eq!(s.column_name(1).unwrap(), "?2");
    assert_eq!(s.column_table_name(0), Some("t".to_string()));
    assert_eq!(s.column_table_name(2), None);
}

#[test]
fn prepare_with_flags_is_misuse() {
    match SQLite3PreparedStmt::prepare("SELECT 1", 1) {
        Ok(_) => panic!("flags accepted"),
        Err(e) => {
            assert_eq!(e.code, SQLITE_MISUSE);
            assert_eq!(e.message, "Persisted prepared statements not supported yet.");
        }
    }
}

#[test]
fn bind_out_of_range_is_refused_and_changes_nothing() {
    let mut s = SQLite3PreparedStmt::new("SELECT ? FROM t");
    assert_eq!(s.bind_int64(0, 5), SQLITE_RANGE);
    assert_eq!(s.bind_int64(2, 5), SQLITE_RANGE);
    assert_eq!(s.bind_text(-1, "x".to_string()), SQLITE_RANGE);
    assert_eq!(s.bind_null(7), SQLITE_RANGE);
    assert!(s.param(1).is_none());
    assert!(convert_params_to_json(&s).is_empty());
    assert_eq!(s.bind_int64(1, 5), SQLITE_OK);
    assert!(matches!(s.param(1), Some(Value::Integer(5))));
    assert_eq!(s.bind_int64(2, 6), SQLITE_RANGE);
    assert!(matches!(s.param(1), Some(Value::Integer(5))));
}

#[test]
fn bound_parameters_serialize_in_index_order() {
    let mut s = SQLite3PreparedStmt::new("INSERT INTO t VALUES (?, ?, ?, ?, ?)");
    assert_eq!(s.bind_text(4, "hi".to_string()), SQLITE_OK);
    assert_eq!(s.bind_int64(1, -7), SQLITE_OK);
    assert_eq!(s.bind_null(2), SQLITE_OK);
    assert_eq!(s.bind_double(5, 1.5f64.to_bits()), SQLITE_OK);
    let args = convert_params_to_json(&s);
    assert_eq!(args.len(), 4);
    assert_eq!(s.bind_parameter_count(), 5);
    assert_eq!(args[0].kind, "integer");
    assert!(matches!(&args[0].value, ArgValue::Text(t) if t == "-7"));
    assert_eq!(args[1].kind, "null");
    assert!(matches!(args[1].value, ArgValue::Null));
    assert_eq!(args[2].kind, "text");
    assert!(matches!(&args[2].value, ArgValue::Text(t) if t == "hi"));
    assert_eq!(args[3].kind, "float");
    assert!(matches!(args[3].value, ArgValue::Float(b) if b == 1.5f64.to_bits()));
}

#[test]
fn rebinding_replaces_the_value() {
    let mut s = SQLite3PreparedStmt::new("SELECT ?");
    assert_eq!(s.bind_int64(1, 1), SQLITE_OK);
    assert_eq!(s.bind_text(1, "two".to_string()), SQLITE_OK);
    let args = convert_params_to_json(&s);
    assert_eq!(args.len(), 1);
    assert_eq!(args[0].kind, "text");
}

#[test]
fn reset_clears_everything() {
    let mut db = handle();
    let mut s = SQLite3PreparedStmt::new("SELECT ? FROM t");
    assert_eq!(s.bind_int64(1, 9), SQLITE_OK);
    let code = execute(&mut s, &mut db, select_response(vec![vec![int_cell("1")]]));
    assert_eq!(code, SQLITE_ROW);
    assert_eq!(s.reset(), SQLITE_OK);
    assert!(matches!(s.execution_state(), ExecutionState::Prepared));
    assert!(s.param(1).is_none());
    assert!(s.result_rows().is_empty());
    assert_eq!(s.current_row(), None);
    assert_eq!(s.column_count(), 0);
    assert_eq!(s.bind_parameter_count(), 1);
}

#[test]
fn row_then_done_scenario() {
    let mut db = handle();
    let mut s = SQLite3PreparedStmt::new("SELECT n FROM t");
    let code = execute(&mut s, &mut db, select_response(vec![vec![int_cell("7")]]));
    assert_eq!(code, SQLITE_ROW);
    assert_eq!(s.column_int64(0), Some(7));
    assert_eq!(s.column_type(0), SQLITE_INTEGER);
    assert_eq!(s.column_bytes(0), 8);
    assert!(matches!(s.begin_step(), StepAction::Respond(c) if c == SQLITE_DONE));
    assert_eq!(s.column_type(0), SQLITE_NULL);
}

#[test]
fn n_rows_give_n_row_steps_then_done() {
    let mut db = handle();
    let mut s = SQLite3PreparedStmt::new("SELECT n FROM t");
    let rows = vec![vec![int_cell("1")], vec![int_cell("2")], vec![int_cell("3")]];
    assert_eq!(execute(&mut s, &mut db, select_response(rows)), SQLITE_ROW);
    assert_eq!(s.column_int64(0), Some(1));
    assert!(matches!(s.begin_step(), StepAction::Respond(c) if c == SQLITE_ROW));
    assert_eq!(s.column_int64(0), Some(2));
    assert!(matches!(s.begin_step(), StepAction::Respond(c) if c == SQLITE_ROW));
    assert_eq!(s.column_int64(0), Some(3));
    assert!(matches!(s.begin_step(), StepAction::Respond(c) if c == SQLITE_DONE));
}

#[test]
fn no_rows_means_done_at_once() {
    let mut db = handle();
    let mut s = SQLite3PreparedStmt::new("DELETE FROM t");
    assert_eq!(execute(&mut s, &mut db, select_response(vec![])), SQLITE_DONE);
    assert!(matches!(s.execution_state(), ExecutionState::Done));
}

#[test]
fn step_on_done_is_idempotent() {
    let mut db = handle();
    let mut s = SQLite3PreparedStmt::new("UPDATE t SET a = 1");
    assert_eq!(execute(&mut s, &mut db, select_response(vec![])), SQLITE_DONE);
    for _ in 0..3 {
        assert!(matches!(s.begin_step(), StepAction::Respond(c) if c == SQLITE_DONE));
        assert!(matches!(s.execution_state(), ExecutionState::Done));
    }
}

#[test]
fn step_while_executing_is_misuse() {
    let mut s = SQLite3PreparedStmt::new("SELECT 1");
    assert!(matches!(s.begin_step(), StepAction::Execute));
    assert!(matches!(s.begin_step(), StepAction::Respond(c) if c == SQLITE_MISUSE));
}

#[test]
fn transaction_keywords_are_routed() {
    let mut s = SQLite3PreparedStmt::new("begin transaction");
    assert!(matches!(s.begin_step(), StepAction::Begin));
    match s.finish_transaction(Ok(SQLITE_OK)) {
        Ok(c) => assert_eq!(c, SQLITE_DONE),
        Err(_) => panic!("begin failed"),
    }
    let mut c = SQLite3PreparedStmt::new("COMMIT");
    assert!(matches!(c.begin_step(), StepAction::Commit));
}

#[test]
fn failed_execution_sticks_in_error_until_reset() {
    let mut db = handle();
    let mut s = SQLite3PreparedStmt::new("SELECT 1");
    assert!(matches!(s.begin_step(), StepAction::Execute));
    let r = s.finish_execute(&mut db, Err(SqliteError::new("down".to_string(), None)));
    assert!(matches!(r, Err(e) if e.message == "down"));
    assert!(matches!(s.execution_state(), ExecutionState::Error(m) if m == "down"));
    assert!(matches!(s.begin_step(), StepAction::Respond(c) if c == SQLITE_ERROR));
    s.reset();
    assert!(matches!(s.begin_step(), StepAction::Execute));
}

#[test]
fn remote_error_puts_statement_in_error() {
    let mut db = handle();
    let mut s = SQLite3PreparedStmt::new("SELECT x FROM nope");
    assert!(matches!(s.begin_step(), StepAction::Execute));
    let resp = RemoteSqliteResponse {
        baton: None,
        results: vec![RemoteSQliteResultType {
            response: RemoteSQLiteResult::Error {
                message: "no such table: nope".to_string(),
                code: "SQLITE_ERROR".to_string(),
            },
        }],
    };
    let r = s.finish_execute(&mut db, Ok(resp));
    assert!(matches!(&r, Err(e) if e.message == "Remote SQLite error (code SQLITE_ERROR): no such table: nope"));
    assert!(matches!(s.execution_state(), ExecutionState::Error(_)));
}

#[test]
fn cells_decode_by_advertised_type() {
    let mut db = handle();
    let mut s = SQLite3PreparedStmt::new("SELECT a, b, c, d, e, f FROM t");
    let row = vec![
        RemoteRow { kind: "integer".to_string(), value: CellJson::Number { integer: Some(12), float_bits: 12.0f64.to_bits() } },
        RemoteRow { kind: "integer".to_string(), value: CellJson::Str("oops".to_string()) },
        RemoteRow { kind: "float".to_string(), value: CellJson::Number { integer: None, float_bits: 2.5f64.to_bits() } },
        RemoteRow { kind: "text".to_string(), value: CellJson::Str("hey".to_string()) },
        RemoteRow { kind: "text".to_string(), value: CellJson::Null },
        RemoteRow { kind: "blob".to_string(), value: CellJson::Str("AAAA".to_string()) },
    ];
    assert_eq!(execute(&mut s, &mut db, select_response(vec![row])), SQLITE_ROW);
    assert!(matches!(s.column_value(0), Some(Value::Integer(12))));
    assert!(matches!(s.column_value(1), Some(Value::Integer(0))));
    assert!(matches!(s.column_value(2), Some(Value::Real(b)) if *b == 2.5f64.to_bits()));
    assert!(matches!(s.column_value(3), Some(Value::Text(t)) if t == "hey"));
    assert!(matches!(s.column_value(4), Some(Value::Null)));
    assert!(matches!(s.column_value(5), Some(Value::Null)));
    assert!(s.column_value(6).is_none());
    assert_eq!(s.column_int64(2), None);
    assert_eq!(s.column_bytes(3), 3);
    assert_eq!(s.column_count(), 1);
}

#[test]
fn iterate_rows_walks_the_buffer() {
    let mut empty = SQLite3PreparedStmt::new("SELECT 1");
    assert_eq!(iterate_rows(&mut empty), SQLITE_DONE);
    assert!(matches!(empty.execution_state(), ExecutionState::Done));
    let mut db = handle();
    let mut s = SQLite3PreparedStmt::new("SELECT n FROM t");
    let rows = vec![vec![int_cell("1")], vec![int_cell("2")]];
    assert_eq!(execute(&mut s, &mut db, select_response(rows)), SQLITE_ROW);
    assert_eq!(s.current_row(), Some(0));
    assert_eq!(iterate_rows(&mut s), SQLITE_ROW);
    assert_eq!(s.current_row(), Some(1));
    assert_eq!(iterate_rows(&mut s), SQLITE_DONE);
    assert_eq!(s.current_row(), None);
}
