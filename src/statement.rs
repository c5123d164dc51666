//! The prepared statement: bound parameters, the buffered result set, the
//! row cursor, and the execution state machine driven by `step` and `reset`.
use vstd::prelude::*;
use crate::codes::{
    SqliteError, SQLITE_DONE, SQLITE_ERROR, SQLITE_MISUSE, SQLITE_NULL, SQLITE_OK, SQLITE_RANGE,
    SQLITE_ROW,
};
use crate::database::{absorbed, executed_result, get_execution_result, SQLite3};
use crate::protocol::{
    arg_of, column_names_from, materialize_rows, rows_decoded, to_arg, Arg, RemoteSqliteResponse,
};
use crate::sql::{
    classify_leading_keyword, column_names_of, count_parameters, extract_column_names,
    extract_table_name, keyword_of, placeholder_count, table_after_from, Keyword,
};
use crate::value::{byte_len_of, int64_of, type_code_of, Value};

verus! {

/// Where a statement stands in its execution.
pub enum ExecutionState {
    Prepared,
    Executing,
    Row,
    Done,
    Error(String),
    Reset,
}

/// The observable state of a prepared statement.
pub struct StmtView {
    pub sql: Seq<char>,
    pub param_count: nat,
    pub params: Map<i32, Value>,
    pub state: ExecutionState,
    pub rows: Seq<Vec<Value>>,
    pub cursor: Option<nat>,
    pub column_names: Seq<String>,
}

/// A statement prepared on a handle; the handle must outlive it.
pub struct SQLite3PreparedStmt {
    sql: String,
    param_count: usize,
    params: Vec<Option<Value>>,
    execution_state: ExecutionState,
    result_rows: Vec<Vec<Value>>,
    current_row: Option<usize>,
    column_names: Vec<String>,
}

/// What `step` asks of the caller once the state machine has moved.
pub enum StepAction {
    /// Return this code; nothing is sent.
    Respond(i32),
    /// Send the statement with its bound parameters, then call `finish_execute`.
    Execute,
    /// Open a transaction on the handle, then call `finish_transaction`.
    Begin,
    /// Commit the transaction of the handle, then call `finish_transaction`.
    Commit,
}

/// The parameter map held by the slots for indices `1..=slots.len()`.
pub open spec fn slots_map(slots: Seq<Option<Value>>) -> Map<i32, Value> {
    Map::new(
        |i: i32| 1 <= i <= slots.len() && slots[i - 1] is Some,
        |i: i32| slots[i - 1]->Some_0,
    )
}

/// The bound values in ascending index order.
pub open spec fn present(slots: Seq<Option<Value>>) -> Seq<Value>
    decreases slots.len(),
{
    if slots.len() == 0 {
        seq![]
    } else {
        let rest = present(slots.drop_last());
        match slots.last() {
            Some(v) => rest.push(v),
            None => rest,
        }
    }
}

/// The values bound at indices `1..=k`, in ascending index order.
pub open spec fn bound_in_order(params: Map<i32, Value>, k: int) -> Seq<Value>
    decreases k,
{
    if k <= 0 {
        seq![]
    } else {
        let rest = bound_in_order(params, k - 1);
        if k <= i32::MAX && params.contains_key(k as i32) {
            rest.push(params[k as i32])
        } else {
            rest
        }
    }
}

/// The bound indices up to `n`.
pub open spec fn keys_upto(params: Map<i32, Value>, n: int) -> Set<i32> {
    params.dom().filter(|k: i32| k as int <= n)
}

proof fn lemma_in_order_len(params: Map<i32, Value>, n: int)
    requires
        forall|k: i32| params.contains_key(k) ==> 1 <= k,
    ensures
        keys_upto(params, n).finite(),
        bound_in_order(params, n).len() == keys_upto(params, n).len(),
    decreases n,
{
    if n <= 0 {
        assert(keys_upto(params, n) =~= Set::<i32>::empty());
    } else {
        lemma_in_order_len(params, n - 1);
        let prev = keys_upto(params, n - 1);
        if n <= i32::MAX && params.contains_key(n as i32) {
            assert(keys_upto(params, n) =~= prev.insert(n as i32));
            assert(!prev.contains(n as i32));
        } else {
            assert forall|k: i32| #[trigger] keys_upto(params, n).contains(k) implies prev.contains(k) by {
                if k as int == n {
                    assert(params.contains_key(n as i32));
                }
            }
            assert(keys_upto(params, n) =~= prev);
        }
    }
}

proof fn lemma_present_in_order(s: Seq<Option<Value>>, i: int)
    requires
        0 <= i <= s.len(),
        forall|j: int| i32::MAX <= j < s.len() ==> s[j] is None,
    ensures
        present(s.subrange(0, i)) == bound_in_order(slots_map(s), i),
    decreases i,
{
    if i > 0 {
        lemma_present_in_order(s, i - 1);
        assert(s.subrange(0, i).drop_last() =~= s.subrange(0, i - 1));
        if i <= i32::MAX {
            assert(slots_map(s).contains_key(i as i32) == (s[i - 1] is Some));
        }
    }
}

/// The cursor after one more step over `n` buffered rows: the next row,
/// the first one when there was no cursor yet, or none past the end.
pub open spec fn advance(cursor: Option<nat>, n: nat) -> Option<nat> {
    match cursor {
        Some(c) => if c + 1 < n {
            Some((c + 1) as nat)
        } else {
            None
        },
        None => if n > 0 {
            Some(0nat)
        } else {
            None
        },
    }
}

/// The cursor after `k` more steps.
pub open spec fn advance_times(cursor: Option<nat>, n: nat, k: nat) -> Option<nat>
    decreases k,
{
    if k == 0 {
        cursor
    } else {
        advance(advance_times(cursor, n, (k - 1) as nat), n)
    }
}

/// The code of a step that left the cursor at `cursor`.
pub open spec fn row_code(cursor: Option<nat>) -> i32 {
    if cursor is Some {
        SQLITE_ROW
    } else {
        SQLITE_DONE
    }
}

/// The value at column `col` of the current row, if any.
pub open spec fn cell_at(v: StmtView, col: int) -> Option<Value> {
    match v.cursor {
        Some(c) => if c < v.rows.len() && 0 <= col < v.rows[c as int]@.len() {
            Some(v.rows[c as int]@[col])
        } else {
            None
        },
        None => None,
    }
}

/// A statement that never ran: nothing bound, nothing buffered.
pub open spec fn fresh(v: StmtView) -> bool {
    &&& v.params == Map::<i32, Value>::empty()
    &&& v.state == ExecutionState::Prepared
    &&& v.rows.len() == 0
    &&& v.cursor is None
}

impl View for SQLite3PreparedStmt {
    type V = StmtView;

    closed spec fn view(&self) -> StmtView {
        StmtView {
            sql: self.sql@,
            param_count: self.param_count as nat,
            params: slots_map(self.params@),
            state: self.execution_state,
            rows: self.result_rows@,
            cursor: match self.current_row {
                Some(c) => Some(c as nat),
                None => None,
            },
            column_names: self.column_names@,
        }
    }
}

fn empty_slots(n: usize) -> (r: Vec<Option<Value>>)
    ensures
        r@.len() == n,
        forall|i: int| 0 <= i < n ==> r@[i] is None,
{
    let mut r: Vec<Option<Value>> = Vec::new();
    let mut i: usize = 0;
    while i < n
        invariant
            i <= n,
            r@.len() == i,
            forall|k: int| 0 <= k < i ==> r@[k] is None,
        decreases n - i,
    {
        r.push(None);
        i = i + 1;
    }
    r
}

impl SQLite3PreparedStmt {
    /// Parameters stay within `1..=param_count`; a cursor points into the
    /// result set, and there is one exactly while a row is on offer.
    pub closed spec fn wf(&self) -> bool {
        &&& self.params@.len() == self.param_count
        &&& forall|i: int| i32::MAX <= i < self.params@.len() ==> self.params@[i] is None
        &&& match self.current_row {
            Some(c) => c < self.result_rows@.len(),
            None => true,
        }
        &&& (self.execution_state is Row <==> self.current_row is Some)
    }

    /// Prepares `sql`: its parameters are counted and the column names of a
    /// trivial `SELECT` are inferred.
    pub fn new(sql: &str) -> (r: Self)
        ensures
            r.wf(),
            fresh(r@),
            r@.sql == sql@,
            r@.param_count == placeholder_count(sql@),
            r@.column_names.map_values(|n: String| n@) == column_names_of(sql@),
    {
        let param_count = count_parameters(sql);
        let column_names = extract_column_names(sql);
        let params = empty_slots(param_count);
        let r = SQLite3PreparedStmt {
            sql: String::from_str(sql),
            param_count,
            params,
            execution_state: ExecutionState::Prepared,
            result_rows: Vec::new(),
            current_row: None,
            column_names,
        };
        assert(r@.params =~= Map::<i32, Value>::empty());
        r
    }

    /// Prepares `sql` with the given flags; persistent preparation (any
    /// non-zero flag) is not supported.
    pub fn prepare(sql: &str, prep_flags: u32) -> (r: Result<Self, SqliteError>)
        ensures
            prep_flags != 0 ==> (r matches Err(e) && e.code == SQLITE_MISUSE && e.message@
                == "Persisted prepared statements not supported yet."@),
            prep_flags == 0 ==> (r matches Ok(s) && s.wf() && fresh(s@) && s@.sql == sql@
                && s@.param_count == placeholder_count(sql@) && s@.column_names.map_values(
                |n: String| n@,
            ) == column_names_of(sql@)),
    {
        if prep_flags != 0 {
            return Err(
                SqliteError::from_str(
                    "Persisted prepared statements not supported yet.",
                    SQLITE_MISUSE,
                ),
            );
        }
        Ok(SQLite3PreparedStmt::new(sql))
    }

    pub fn sql(&self) -> (r: &String)
        ensures
            r@ == self@.sql,
    {
        &self.sql
    }

    pub fn bind_parameter_count(&self) -> (r: usize)
        ensures
            r == self@.param_count,
    {
        self.param_count
    }

    pub fn execution_state(&self) -> (r: &ExecutionState)
        ensures
            *r == self@.state,
    {
        &self.execution_state
    }

    pub fn current_row(&self) -> (r: Option<usize>)
        ensures
            match r {
                Some(c) => self@.cursor == Some(c as nat),
                None => self@.cursor is None,
            },
    {
        self.current_row
    }

    pub fn result_rows(&self) -> (r: &Vec<Vec<Value>>)
        ensures
            r@ == self@.rows,
    {
        &self.result_rows
    }

    pub fn column_names(&self) -> (r: &Vec<String>)
        ensures
            r@ == self@.column_names,
    {
        &self.column_names
    }

    pub fn column_count(&self) -> (r: usize)
        ensures
            r == self@.column_names.len(),
    {
        self.column_names.len()
    }

    /// The value bound at `index`, if any.
    pub fn param(&self, index: i32) -> (r: Option<&Value>)
        requires
            self.wf(),
        ensures
            match r {
                Some(v) => self@.params.contains_key(index) && self@.params[index] == *v,
                None => !self@.params.contains_key(index),
            },
    {
        if index < 1 || index as usize > self.params.len() {
            return None;
        }
        match &self.params[(index - 1) as usize] {
            Some(v) => Some(v),
            None => None,
        }
    }

    /// Binds `value` at the 1-based `index`. An index outside
    /// `1..=param_count` is refused with `SQLITE_RANGE` and changes nothing.
    pub fn bind(&mut self, index: i32, value: Value) -> (r: i32)
        requires
            old(self).wf(),
        ensures
            final(self).wf(),
            1 <= index <= old(self)@.param_count ==> r == SQLITE_OK && final(self)@ == (StmtView {
                params: old(self)@.params.insert(index, value),
                ..old(self)@
            }),
            !(1 <= index <= old(self)@.param_count) ==> r == SQLITE_RANGE && final(self)@ == old(
                self,
            )@,
    {
        if index <= 0 || index as usize > self.param_count {
            return SQLITE_RANGE;
        }
        let ghost before = self.params@;
        self.params.set((index - 1) as usize, Some(value));
        assert(slots_map(self.params@) =~= slots_map(before).insert(index, value));
        SQLITE_OK
    }

    pub fn bind_int64(&mut self, index: i32, value: i64) -> (r: i32)
        requires
            old(self).wf(),
        ensures
            final(self).wf(),
            1 <= index <= old(self)@.param_count ==> r == SQLITE_OK && final(self)@ == (StmtView {
                params: old(self)@.params.insert(index, Value::Integer(value)),
                ..old(self)@
            }),
            !(1 <= index <= old(self)@.param_count) ==> r == SQLITE_RANGE && final(self)@ == old(
                self,
            )@,
    {
        self.bind(index, Value::Integer(value))
    }

    /// Binds a real, given as the bit pattern of a double.
    pub fn bind_double(&mut self, index: i32, bits: u64) -> (r: i32)
        requires
            old(self).wf(),
        ensures
            final(self).wf(),
            1 <= index <= old(self)@.param_count ==> r == SQLITE_OK && final(self)@ == (StmtView {
                params: old(self)@.params.insert(index, Value::Real(bits)),
                ..old(self)@
            }),
            !(1 <= index <= old(self)@.param_count) ==> r == SQLITE_RANGE && final(self)@ == old(
                self,
            )@,
    {
        self.bind(index, Value::Real(bits))
    }

    pub fn bind_text(&mut self, index: i32, text: String) -> (r: i32)
        requires
            old(self).wf(),
        ensures
            final(self).wf(),
            1 <= index <= old(self)@.param_count ==> r == SQLITE_OK && final(self)@ == (StmtView {
                params: old(self)@.params.insert(index, Value::Text(text)),
                ..old(self)@
            }),
            !(1 <= index <= old(self)@.param_count) ==> r == SQLITE_RANGE && final(self)@ == old(
                self,
            )@,
    {
        self.bind(index, Value::Text(text))
    }

    pub fn bind_null(&mut self, index: i32) -> (r: i32)
        requires
            old(self).wf(),
        ensures
            final(self).wf(),
            1 <= index <= old(self)@.param_count ==> r == SQLITE_OK && final(self)@ == (StmtView {
                params: old(self)@.params.insert(index, Value::Null),
                ..old(self)@
            }),
            !(1 <= index <= old(self)@.param_count) ==> r == SQLITE_RANGE && final(self)@ == old(
                self,
            )@,
    {
        self.bind(index, Value::Null)
    }

    /// Back to `Prepared`: bindings, result set, cursor and column names are
    /// cleared.
    pub fn reset(&mut self) -> (r: i32)
        requires
            old(self).wf(),
        ensures
            r == SQLITE_OK,
            final(self).wf(),
            fresh(final(self)@),
            final(self)@.column_names.len() == 0,
            final(self)@.sql == old(self)@.sql,
            final(self)@.param_count == old(self)@.param_count,
    {
        self.params = empty_slots(self.param_count);
        self.execution_state = ExecutionState::Prepared;
        self.result_rows = Vec::new();
        self.current_row = None;
        self.column_names = Vec::new();
        assert(self@.params =~= Map::<i32, Value>::empty());
        SQLITE_OK
    }

    /// Moves the state machine one step. A prepared statement starts
    /// executing and asks for its statement (or a `BEGIN` / `COMMIT`) to be
    /// sent; on a row the cursor advances; `Done` answers `SQLITE_DONE`
    /// again; `Error` answers `SQLITE_ERROR`; any other state is a misuse.
    pub fn begin_step(&mut self) -> (r: StepAction)
        requires
            old(self).wf(),
        ensures
            final(self).wf(),
            old(self)@.state is Prepared ==> final(self)@ == (StmtView {
                state: ExecutionState::Executing,
                ..old(self)@
            }) && r == match keyword_of(old(self)@.sql) {
                Keyword::Begin => StepAction::Begin,
                Keyword::Commit => StepAction::Commit,
                _ => StepAction::Execute,
            },
            old(self)@.state is Row ==> final(self)@ == (StmtView {
                cursor: advance(old(self)@.cursor, old(self)@.rows.len()),
                state: if advance(old(self)@.cursor, old(self)@.rows.len()) is Some {
                    ExecutionState::Row
                } else {
                    ExecutionState::Done
                },
                ..old(self)@
            }) && r == StepAction::Respond(
                row_code(advance(old(self)@.cursor, old(self)@.rows.len())),
            ),
            old(self)@.state is Done ==> final(self)@ == old(self)@ && r == StepAction::Respond(
                SQLITE_DONE,
            ),
            old(self)@.state is Error ==> final(self)@ == old(self)@ && r == StepAction::Respond(
                SQLITE_ERROR,
            ),
            (old(self)@.state is Executing || old(self)@.state is Reset) ==> final(self)@ == old(
                self,
            )@ && r == StepAction::Respond(SQLITE_MISUSE),
    {
        match self.execution_state {
            ExecutionState::Prepared => {
                self.execution_state = ExecutionState::Executing;
                match classify_leading_keyword(self.sql.as_str()) {
                    Keyword::Begin => StepAction::Begin,
                    Keyword::Commit => StepAction::Commit,
                    _ => StepAction::Execute,
                }
            },
            ExecutionState::Row => StepAction::Respond(iterate_rows(self)),
            ExecutionState::Done => StepAction::Respond(SQLITE_DONE),
            ExecutionState::Error(_) => StepAction::Respond(SQLITE_ERROR),
            _ => StepAction::Respond(SQLITE_MISUSE),
        }
    }

    /// Takes the answer to an execution asked for by `begin_step`. The
    /// handle absorbs it; the rows of its first step are buffered and the
    /// cursor set on the first of them (`SQLITE_ROW`), or the statement is
    /// done when there are none (`SQLITE_DONE`). A failure puts the
    /// statement in `Error`.
    pub fn finish_execute<H>(
        &mut self,
        db: &mut SQLite3<H>,
        outcome: Result<RemoteSqliteResponse, SqliteError>,
    ) -> (r: Result<i32, SqliteError>)
        requires
            old(self).wf(),
            old(self)@.state is Executing,
            old(db).wf(),
        ensures
            final(self).wf(),
            final(db).wf(),
            final(self)@.sql == old(self)@.sql,
            final(self)@.param_count == old(self)@.param_count,
            final(self)@.params == old(self)@.params,
            match outcome {
                Err(e) => r == Err::<i32, SqliteError>(e) && final(self)@ == (StmtView {
                    state: ExecutionState::Error(e.message),
                    ..old(self)@
                }) && final(db)@ == old(db)@,
                Ok(resp) => absorbed(old(db)@, final(db)@, resp) && match executed_result(resp) {
                    None => (r matches Err(e) && final(self)@ == (StmtView {
                        state: ExecutionState::Error(e.message),
                        ..old(self)@
                    })),
                    Some(q) => rows_decoded(q.rows@, final(self)@.rows)
                        && final(self)@.column_names.len() == q.cols@.len() && (forall|i: int|
                        0 <= i < q.cols@.len() ==> final(self)@.column_names[i] == q.cols@[i].name)
                        && (q.rows@.len() > 0 ==> r == Ok::<i32, SqliteError>(SQLITE_ROW)
                        && final(self)@.state == ExecutionState::Row && final(self)@.cursor == Some(
                        0nat,
                    )) && (q.rows@.len() == 0 ==> r == Ok::<i32, SqliteError>(SQLITE_DONE)
                        && final(self)@.state == ExecutionState::Done && final(self)@.cursor is None),
                },
            },
    {
        match outcome {
            Err(e) => {
                self.execution_state = ExecutionState::Error(e.message.clone());
                Err(e)
            },
            Ok(resp) => {
                match get_execution_result(db, &resp) {
                    Err(e) => {
                        self.execution_state = ExecutionState::Error(e.message.clone());
                        Err(e)
                    },
                    Ok(q) => {
                        self.column_names = column_names_from(&q.cols);
                        self.result_rows = materialize_rows(&q.rows);
                        self.current_row = None;
                        Ok(iterate_rows(self))
                    },
                }
            },
        }
    }

    /// Takes the outcome of a `BEGIN` or `COMMIT` asked for by `begin_step`:
    /// the statement is done, or in `Error` with the failure handed back.
    pub fn finish_transaction(&mut self, outcome: Result<i32, SqliteError>) -> (r: Result<
        i32,
        SqliteError,
    >)
        requires
            old(self).wf(),
            old(self)@.state is Executing,
        ensures
            final(self).wf(),
            match outcome {
                Ok(_) => r == Ok::<i32, SqliteError>(SQLITE_DONE) && final(self)@ == (StmtView {
                    state: ExecutionState::Done,
                    ..old(self)@
                }),
                Err(e) => r == Err::<i32, SqliteError>(e) && final(self)@ == (StmtView {
                    state: ExecutionState::Error(e.message),
                    ..old(self)@
                }),
            },
    {
        match outcome {
            Ok(_) => {
                self.execution_state = ExecutionState::Done;
                Ok(SQLITE_DONE)
            },
            Err(e) => {
                self.execution_state = ExecutionState::Error(e.message.clone());
                Err(e)
            },
        }
    }

    /// The value at column `col` of the current row, if there is one.
    pub fn column_value(&self, col: usize) -> (r: Option<&Value>)
        requires
            self.wf(),
        ensures
            match r {
                Some(v) => cell_at(self@, col as int) == Some(*v),
                None => cell_at(self@, col as int) is None,
            },
    {
        match self.current_row {
            Some(c) => {
                let row = &self.result_rows[c];
                if col < row.len() {
                    Some(&row[col])
                } else {
                    None
                }
            },
            None => None,
        }
    }

    /// The type code of column `col` of the current row; null when absent.
    pub fn column_type(&self, col: usize) -> (r: i32)
        requires
            self.wf(),
        ensures
            r == match cell_at(self@, col as int) {
                Some(v) => type_code_of(v),
                None => SQLITE_NULL,
            },
    {
        match self.column_value(col) {
            Some(v) => v.type_code(),
            None => SQLITE_NULL,
        }
    }

    /// The byte length of column `col` of the current row; 0 when absent.
    pub fn column_bytes(&self, col: usize) -> (r: usize)
        requires
            self.wf(),
        ensures
            r == match cell_at(self@, col as int) {
                Some(v) => byte_len_of(v),
                None => 0,
            },
    {
        match self.column_value(col) {
            Some(v) => v.byte_len(),
            None => 0,
        }
    }

    /// The integer readout of column `col` of the current row (0 when
    /// absent); `None` for a real, which the caller truncates itself.
    pub fn column_int64(&self, col: usize) -> (r: Option<i64>)
        requires
            self.wf(),
        ensures
            r == match cell_at(self@, col as int) {
                Some(v) => int64_of(v),
                None => Some(0i64),
            },
    {
        match self.column_value(col) {
            Some(v) => v.int64_value(),
            None => Some(0),
        }
    }

    /// The name of result column `col`.
    pub fn column_name(&self, col: usize) -> (r: Option<&String>)
        ensures
            match r {
                Some(n) => col < self@.column_names.len() && *n == self@.column_names[col as int],
                None => col >= self@.column_names.len(),
            },
    {
        if col < self.column_names.len() {
            Some(&self.column_names[col])
        } else {
            None
        }
    }

    /// The table of result column `col`: the table named after the first
    /// `FROM` of the text, for any existing column.
    pub fn column_table_name(&self, col: usize) -> (r: Option<String>)
        ensures
            col >= self@.column_names.len() ==> r is None,
            col < self@.column_names.len() ==> match r {
                Some(t) => table_after_from(self@.sql) == Some(t@),
                None => table_after_from(self@.sql) is None,
            },
    {
        if col >= self.column_names.len() {
            return None;
        }
        extract_table_name(self.sql.as_str())
    }
}

/// The arguments sent for the bound parameters of `stmt`, in ascending
/// index order.
pub fn convert_params_to_json(stmt: &SQLite3PreparedStmt) -> (r: Vec<Arg>)
    requires
        stmt.wf(),
    ensures
        forall|k: i32| stmt@.params.contains_key(k) ==> 1 <= k <= stmt@.param_count,
        r@.len() == stmt@.params.dom().len(),
        r@.len() == bound_in_order(stmt@.params, stmt@.param_count as int).len(),
        forall|k: int|
            0 <= k < r@.len() ==> arg_of(
                r@[k],
                bound_in_order(stmt@.params, stmt@.param_count as int)[k],
            ),
{
    let mut out: Vec<Arg> = Vec::new();
    let mut i: usize = 0;
    while i < stmt.params.len()
        invariant
            i <= stmt.params@.len(),
            out@.len() == present(stmt.params@.subrange(0, i as int)).len(),
            forall|k: int|
                0 <= k < out@.len() ==> arg_of(
                    out@[k],
                    present(stmt.params@.subrange(0, i as int))[k],
                ),
        decreases stmt.params@.len() - i,
    {
        let ghost done = stmt.params@.subrange(0, i as int);
        assert(stmt.params@.subrange(0, i + 1).drop_last() =~= done);
        match &stmt.params[i] {
            Some(v) => {
                out.push(to_arg(v));
            },
            None => {},
        }
        i = i + 1;
    }
    assert(stmt.params@.subrange(0, i as int) =~= stmt.params@);
    proof {
        let m = stmt@.params;
        let n = stmt.params@.len() as int;
        lemma_present_in_order(stmt.params@, n);
        lemma_in_order_len(m, n);
        assert(keys_upto(m, n) =~= m.dom());
    }
    out
}

/// Moves the cursor over the buffered rows: to the first row when there is
/// no cursor yet, else to the next one; past the last row the cursor is
/// dropped and the statement is done.
pub fn iterate_rows(stmt: &mut SQLite3PreparedStmt) -> (r: i32)
    requires
        old(stmt).wf(),
    ensures
        final(stmt).wf(),
        final(stmt)@ == (StmtView {
            cursor: advance(old(stmt)@.cursor, old(stmt)@.rows.len()),
            state: if advance(old(stmt)@.cursor, old(stmt)@.rows.len()) is Some {
                ExecutionState::Row
            } else {
                ExecutionState::Done
            },
            ..old(stmt)@
        }),
        r == row_code(advance(old(stmt)@.cursor, old(stmt)@.rows.len())),
{
    let n = stmt.result_rows.len();
    match stmt.current_row {
        Some(c) if c + 1 < n => {
            stmt.current_row = Some(c + 1);
            stmt.execution_state = ExecutionState::Row;
            SQLITE_ROW
        },
        None if n > 0 => {
            stmt.current_row = Some(0);
            stmt.execution_state = ExecutionState::Row;
            SQLITE_ROW
        },
        _ => {
            stmt.current_row = None;
            stmt.execution_state = ExecutionState::Done;
            SQLITE_DONE
        },
    }
}

/// A value bound at index `i` is among the values that
/// `convert_params_to_json` sends, each as the argument `arg_of` gives: an
/// integer as `{"type":"integer","value":"<decimal>"}`, a text as
/// `{"type":"text","value":<text>}`, a null as `{"type":"null","value":null}`
/// and a real as `{"type":"float", ...}`.
pub proof fn lemma_bound_value_is_sent(params: Map<i32, Value>, n: int, i: i32)
    requires
        1 <= i <= n,
        params.contains_key(i),
    ensures
        exists|k: int|
            0 <= k < bound_in_order(params, n).len() && #[trigger] bound_in_order(params, n)[k]
                == params[i],
    decreases n,
{
    if n == i as int {
        let rest = bound_in_order(params, n - 1);
        assert(bound_in_order(params, n)[rest.len() as int] == params[i]);
    } else {
        lemma_bound_value_is_sent(params, n - 1, i);
        let prev = bound_in_order(params, n - 1);
        let k = choose|k: int| 0 <= k < prev.len() && #[trigger] prev[k] == params[i];
        assert(bound_in_order(params, n)[k] == params[i]);
    }
}

/// After an execution that buffered `n` rows, the execution step and the
/// `n - 1` steps after it each offer a row, and the step after them is done.
pub proof fn lemma_select_yields_each_row(n: nat, k: nat)
    requires
        n >= 1,
    ensures
        k < n ==> advance_times(Some(0nat), n, k) == Some(k) && row_code(
            advance_times(Some(0nat), n, k),
        ) == SQLITE_ROW,
        advance_times(Some(0nat), n, n) is None,
        row_code(advance_times(Some(0nat), n, n)) == SQLITE_DONE,
    decreases k,
{
    if k > 0 {
        lemma_select_yields_each_row(n, (k - 1) as nat);
    }
    lemma_cursor_counts(n, n);
}

proof fn lemma_cursor_counts(n: nat, k: nat)
    requires
        n >= 1,
        k <= n,
    ensures
        k < n ==> advance_times(Some(0nat), n, k) == Some(k),
        k == n ==> advance_times(Some(0nat), n, k) is None,
    decreases k,
{
    if k > 0 {
        lemma_cursor_counts(n, (k - 1) as nat);
    }
}
} // verus!
