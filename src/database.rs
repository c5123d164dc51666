//! The database handle: credentials, transport selector, transaction baton,
//! the effects of the last executed statement, and the hook slots.
//!
//! Transactions run on the HTTP pipeline: only it carries a baton, and the
//! WebSocket client has no way to ask for one. So a handle that opens a
//! transaction (`begin_request`) moves to HTTP for good, as it also does
//! after a WebSocket transport failure (`after_websocket_send`).
use vstd::prelude::*;
use crate::codes::{
    SqliteError, SQLITE_BUSY, SQLITE_CANTOPEN, SQLITE_DELETE, SQLITE_ERROR, SQLITE_INSERT,
    SQLITE_MISUSE, SQLITE_OK, SQLITE_UPDATE,
};
use crate::protocol::{
    baton_request, build_pipeline_request, executes, Arg, PipelineRequest, QueryResult,
    RemoteSQLiteResult, RemoteSqliteResponse,
};
use crate::text::{chars_of, contains_exec, keyword, occurs_at};
use crate::value::{parse_i64, parsed_i64};
use vstd::string::StringExecFns;

verus! {

/// Where the database lives and the token that opens it.
pub struct TursoConfig {
    pub db_url: String,
    pub db_token: String,
}

/// What a hook is told about a write: its operation, database, table and row.
pub struct SqliteHookData {
    pub op: i32,
    pub db_name: String,
    pub tbl_name: String,
    pub row_id: i64,
}

/// The transport that statements go through.
#[derive(PartialEq, Eq, Structural, Clone, Copy, Debug)]
pub enum ActiveStrategy {
    Http,
    Websocket,
}

/// The observable state of a handle.
pub struct HandleView {
    pub baton: Option<String>,
    pub has_began: bool,
    pub last_insert_rowid: Option<i64>,
    pub rows_written: Option<u64>,
    pub strategy: ActiveStrategy,
    pub config: TursoConfig,
}

/// An open database handle. `H` is what a registered hook holds.
pub struct SQLite3<H> {
    config: TursoConfig,
    strategy: ActiveStrategy,
    transaction_baton: Option<String>,
    transaction_has_began: bool,
    last_insert_rowid: Option<i64>,
    rows_written: Option<u64>,
    update_hook: Option<H>,
    insert_hook: Option<H>,
    delete_hook: Option<H>,
}

/// The name asks for an in-memory database.
pub open spec fn is_memory_name(name: Seq<char>) -> bool {
    exists|i: int| occurs_at(name, i, ":memory"@)
}

/// The op code names one of the three hook slots.
pub open spec fn is_hook_op(op: i32) -> bool {
    op == SQLITE_UPDATE || op == SQLITE_INSERT || op == SQLITE_DELETE
}

/// The row id the handle stores for an executed statement that reported
/// `reported`: the parsed value (0 when it does not parse), none when absent.
pub open spec fn rowid_after(reported: Option<String>) -> Option<i64> {
    match reported {
        Some(s) => Some(
            match parsed_i64(s@) {
                Some(i) => i,
                None => 0,
            },
        ),
        None => None,
    }
}

/// The result of the first step of a response, when that step executed.
pub open spec fn executed_result(resp: RemoteSqliteResponse) -> Option<QueryResult> {
    if resp.results@.len() > 0 {
        match resp.results@[0].response {
            RemoteSQLiteResult::Execute { result } => Some(result),
            _ => None,
        }
    } else {
        None
    }
}

/// `new` is the state of a handle in state `old` once it took in `resp`.
pub open spec fn absorbed(old: HandleView, new: HandleView, resp: RemoteSqliteResponse) -> bool {
    &&& new.baton == (if resp.baton is Some {
        resp.baton
    } else {
        old.baton
    })
    &&& new.has_began == (old.has_began || resp.baton is Some)
    &&& new.strategy == old.strategy
    &&& new.config == old.config
    &&& match executed_result(resp) {
        Some(q) => new.last_insert_rowid == rowid_after(q.last_insert_rowid) && new.rows_written
            == q.rows_written,
        None => new.last_insert_rowid == old.last_insert_rowid && new.rows_written
            == old.rows_written,
    }
}

/// What `last_insert_rowid` reports: the stored row id, 0 when none is.
pub open spec fn rowid_of(v: HandleView) -> i64 {
    match v.last_insert_rowid {
        Some(i) => i,
        None => 0,
    }
}

/// What `changes` reports: the stored count of rows written, 0 when none is.
pub open spec fn changes_of(v: HandleView) -> u64 {
    match v.rows_written {
        Some(n) => n,
        None => 0,
    }
}

/// Once a handle has taken in the response to a write, `changes` reports
/// the server's `rows_written`, and `last_insert_rowid` the server's row id,
/// 0 when it is absent or does not parse.
pub proof fn lemma_write_effects(
    old: HandleView,
    new: HandleView,
    resp: RemoteSqliteResponse,
    q: QueryResult,
)
    requires
        absorbed(old, new, resp),
        executed_result(resp) == Some(q),
    ensures
        changes_of(new) == match q.rows_written {
            Some(n) => n,
            None => 0,
        },
        rowid_of(new) == match q.last_insert_rowid {
            Some(t) => match parsed_i64(t@) {
                Some(i) => i,
                None => 0,
            },
            None => 0,
        },
{
}

/// Refuses a name that asks for an in-memory database, before any
/// credentials are looked for.
pub fn reject_in_memory(name: &str) -> (r: Result<(), SqliteError>)
    ensures
        is_memory_name(name@) ==> (r matches Err(e) && e.code == SQLITE_CANTOPEN && e.message@
            == "In-memory databases are not supported"@),
        !is_memory_name(name@) ==> r is Ok,
{
    let s = chars_of(name);
    let memory = keyword(":memory");
    if contains_exec(&s, &memory) {
        return Err(SqliteError::from_str("In-memory databases are not supported", SQLITE_CANTOPEN));
    }
    Ok(())
}

impl<H> View for SQLite3<H> {
    type V = HandleView;

    closed spec fn view(&self) -> HandleView {
        HandleView {
            baton: self.transaction_baton,
            has_began: self.transaction_has_began,
            last_insert_rowid: self.last_insert_rowid,
            rows_written: self.rows_written,
            strategy: self.strategy,
            config: self.config,
        }
    }
}

impl<H> SQLite3<H> {
    /// The callback stored in the slot for `op`.
    pub closed spec fn hook_slot(&self, op: i32) -> Option<H> {
        if op == SQLITE_UPDATE {
            self.update_hook
        } else if op == SQLITE_INSERT {
            self.insert_hook
        } else if op == SQLITE_DELETE {
            self.delete_hook
        } else {
            None
        }
    }

    /// A baton is stored exactly while a transaction is open.
    pub open spec fn wf(&self) -> bool {
        self@.has_began == (self@.baton is Some)
    }

    /// A fresh handle: no transaction, no statement executed, no hooks.
    pub fn new(config: TursoConfig, strategy: ActiveStrategy) -> (r: Self)
        ensures
            r.wf(),
            r@.baton is None,
            r@.last_insert_rowid is None,
            r@.rows_written is None,
            r@.config == config,
            r@.strategy == strategy,
            forall|op: i32| r.hook_slot(op) is None,
    {
        SQLite3 {
            config,
            strategy,
            transaction_baton: None,
            transaction_has_began: false,
            last_insert_rowid: None,
            rows_written: None,
            update_hook: None,
            insert_hook: None,
            delete_hook: None,
        }
    }

    /// Opens a handle on `name` with the credentials resolved for it.
    /// In-memory names are refused; so is a name whose credentials could not
    /// be resolved, with the resolver's message.
    pub fn open(name: &str, credentials: Result<TursoConfig, String>, strategy: ActiveStrategy) -> (r:
        Result<Self, SqliteError>)
        ensures
            is_memory_name(name@) ==> (r matches Err(e) && e.code == SQLITE_CANTOPEN && e.message@
                == "In-memory databases are not supported"@),
            !is_memory_name(name@) ==> match credentials {
                Err(m) => r matches Err(e) && e.code == SQLITE_CANTOPEN && e.message == m,
                Ok(c) => r matches Ok(h) && h.wf() && h@.baton is None
                    && h@.last_insert_rowid is None && h@.rows_written is None && h@.config == c
                    && h@.strategy == strategy && forall|op: i32| h.hook_slot(op) is None,
            },
    {
        match reject_in_memory(name) {
            Err(e) => {
                return Err(e);
            },
            Ok(()) => {},
        }
        match credentials {
            Err(m) => Err(SqliteError { message: m, code: SQLITE_CANTOPEN }),
            Ok(c) => Ok(SQLite3::new(c, strategy)),
        }
    }

    pub fn config(&self) -> (r: &TursoConfig)
        ensures
            *r == self@.config,
    {
        &self.config
    }

    pub fn strategy(&self) -> (r: ActiveStrategy)
        ensures
            r == self@.strategy,
    {
        self.strategy
    }

    pub fn has_began_transaction(&self) -> (r: bool)
        ensures
            r == self@.has_began,
    {
        self.transaction_has_began
    }

    pub fn transaction_baton(&self) -> (r: Option<&String>)
        ensures
            match r {
                Some(b) => self@.baton == Some(*b),
                None => self@.baton is None,
            },
    {
        match &self.transaction_baton {
            Some(b) => Some(b),
            None => None,
        }
    }

    /// 0 while a transaction baton is stored, else 1.
    pub fn get_autocommit(&self) -> (r: i32)
        requires
            self.wf(),
        ensures
            r == 0 <==> self@.baton is Some,
            r == 1 <==> self@.baton is None,
    {
        if self.transaction_baton.is_some() {
            0
        } else {
            1
        }
    }

    /// The row id reported by the last write, 0 when none was.
    pub fn last_insert_rowid(&self) -> (r: i64)
        ensures
            r == rowid_of(self@),
    {
        match self.last_insert_rowid {
            Some(i) => i,
            None => 0,
        }
    }

    /// The rows written by the last write, 0 when none was reported.
    pub fn changes(&self) -> (r: u64)
        ensures
            r == changes_of(self@),
    {
        match self.rows_written {
            Some(n) => n,
            None => 0,
        }
    }

    /// Stores `callback` in the slot for `op` (`None` clears it); any other
    /// op is a misuse and changes nothing.
    pub fn register_hook(&mut self, op: i32, callback: Option<H>) -> (r: i32)
        ensures
            is_hook_op(op) ==> r == SQLITE_OK && final(self).hook_slot(op) == callback,
            !is_hook_op(op) ==> r == SQLITE_MISUSE && final(self).hook_slot(op) == old(
                self,
            ).hook_slot(op),
            forall|o: i32| o != op ==> final(self).hook_slot(o) == old(self).hook_slot(o),
            final(self)@ == old(self)@,
            final(self)@.config == old(self)@.config,
            final(self)@.strategy == old(self)@.strategy,
    {
        if op == SQLITE_UPDATE {
            self.update_hook = callback;
        } else if op == SQLITE_INSERT {
            self.insert_hook = callback;
        } else if op == SQLITE_DELETE {
            self.delete_hook = callback;
        } else {
            return SQLITE_MISUSE;
        }
        SQLITE_OK
    }

    /// The callback registered for `op`, if any.
    pub fn hook(&self, op: i32) -> (r: Option<&H>)
        ensures
            !is_hook_op(op) ==> r is None,
            match r {
                Some(h) => self.hook_slot(op) == Some(*h),
                None => self.hook_slot(op) is None,
            },
    {
        let slot = if op == SQLITE_UPDATE {
            &self.update_hook
        } else if op == SQLITE_INSERT {
            &self.insert_hook
        } else if op == SQLITE_DELETE {
            &self.delete_hook
        } else {
            return None;
        };
        match slot {
            Some(h) => Some(h),
            None => None,
        }
    }

    /// Records how a send over the WebSocket went: after a failure, later
    /// statements use HTTP for the rest of the handle's life.
    pub fn after_websocket_send(&mut self, failed: bool)
        ensures
            final(self)@.strategy == (if failed {
                ActiveStrategy::Http
            } else {
                old(self)@.strategy
            }),
            final(self)@.baton == old(self)@.baton,
            final(self)@.has_began == old(self)@.has_began,
            final(self)@.last_insert_rowid == old(self)@.last_insert_rowid,
            final(self)@.rows_written == old(self)@.rows_written,
            final(self)@.config == old(self)@.config,
            forall|o: i32| final(self).hook_slot(o) == old(self).hook_slot(o),
    {
        if failed {
            self.strategy = ActiveStrategy::Http;
        }
    }

    /// The request that executes `sql` with `args` on this handle: inside a
    /// transaction it carries the baton, outside one it closes the stream.
    pub fn execute_request(&self, sql: &str, args: Vec<Arg>) -> (r: PipelineRequest)
        requires
            self.wf(),
        ensures
            executes(r.requests@[0], sql@, Some(args@)),
            self@.has_began ==> r.requests@.len() == 1 && r.baton == self@.baton,
            !self@.has_began ==> r.requests@.len() == 2 && r.requests@[1] is Close && r.baton is None,
    {
        let baton = match &self.transaction_baton {
            Some(b) => Some(b),
            None => None,
        };
        build_pipeline_request(sql, args, baton, self.transaction_has_began)
    }

    /// Checks that no transaction is open and gives the request that opens one.
    /// Only the HTTP pipeline carries a baton, so a handle that opens a
    /// transaction moves to HTTP.
    pub fn begin_request(&mut self, sql: &str) -> (r: Result<PipelineRequest, SqliteError>)
        ensures
            old(self)@.has_began ==> (r matches Err(e) && e.code == SQLITE_BUSY && e.message@
                == "A transaction is already active."@ && final(self)@ == old(self)@),
            !old(self)@.has_began ==> (r matches Ok(q) && q.requests@.len() == 1 && executes(
                q.requests@[0],
                sql@,
                None,
            ) && q.baton is None && final(self)@ == (HandleView {
                strategy: ActiveStrategy::Http,
                ..old(self)@
            })),
            forall|o: i32| final(self).hook_slot(o) == old(self).hook_slot(o),
    {
        if self.transaction_has_began {
            return Err(SqliteError::from_str("A transaction is already active.", SQLITE_BUSY));
        }
        self.strategy = ActiveStrategy::Http;
        Ok(baton_request(sql))
    }

    /// Takes the answer to the request of `begin_request`: the baton it
    /// carries opens the transaction; without one nothing changes.
    pub fn finish_begin(&mut self, outcome: Result<RemoteSqliteResponse, SqliteError>) -> (r: Result<
        i32,
        SqliteError,
    >)
        requires
            old(self).wf(),
        ensures
            final(self).wf(),
            match outcome {
                Ok(resp) => match resp.baton {
                    Some(b) => r == Ok::<i32, SqliteError>(SQLITE_OK) && final(self)@.baton == Some(b),
                    None => r matches Err(e) && e.code == SQLITE_ERROR && e.message@
                        == "Failed to get transaction baton"@ && final(self)@ == old(self)@,
                },
                Err(f) => r matches Err(e) && e.code == SQLITE_ERROR && e.message@
                    == "Failed to get transaction baton: "@ + f.message@ && final(self)@ == old(self)@,
            },
            final(self)@.last_insert_rowid == old(self)@.last_insert_rowid,
            final(self)@.rows_written == old(self)@.rows_written,
            final(self)@.config == old(self)@.config,
            final(self)@.strategy == old(self)@.strategy,
            forall|o: i32| final(self).hook_slot(o) == old(self).hook_slot(o),
    {
        match outcome {
            Ok(resp) => match resp.baton {
                Some(b) => {
                    self.transaction_baton = Some(b);
                    self.transaction_has_began = true;
                    Ok(SQLITE_OK)
                },
                None => Err(SqliteError::from_str("Failed to get transaction baton", SQLITE_ERROR)),
            },
            Err(f) => {
                let message = String::from_str("Failed to get transaction baton: ").concat(
                    f.message.as_str(),
                );
                Err(SqliteError { message, code: SQLITE_ERROR })
            },
        }
    }

    /// Checks that a transaction is open and gives the request that sends
    /// `sql` (typically `COMMIT`) on it.
    pub fn commit_request(&self, sql: &str) -> (r: Result<PipelineRequest, SqliteError>)
        requires
            self.wf(),
        ensures
            !self@.has_began ==> (r matches Err(e) && e.code == SQLITE_ERROR && e.message@
                == "No transaction is currently active."@),
            self@.has_began ==> (r matches Ok(q) && q.requests@.len() == 1 && executes(
                q.requests@[0],
                sql@,
                Some(Seq::empty()),
            ) && q.baton == self@.baton),
    {
        if !self.transaction_has_began {
            return Err(SqliteError::from_str("No transaction is currently active.", SQLITE_ERROR));
        }
        Ok(self.execute_request(sql, Vec::new()))
    }

    /// Takes the answer to the request of `commit_request`: on success the
    /// transaction is closed; a failure is handed back and changes nothing.
    pub fn finish_commit(&mut self, outcome: Result<RemoteSqliteResponse, SqliteError>) -> (r: Result<
        i32,
        SqliteError,
    >)
        requires
            old(self).wf(),
        ensures
            final(self).wf(),
            match outcome {
                Ok(_) => r == Ok::<i32, SqliteError>(SQLITE_OK) && final(self)@.baton is None,
                Err(f) => r == Err::<i32, SqliteError>(f) && final(self)@ == old(self)@,
            },
            final(self)@.last_insert_rowid == old(self)@.last_insert_rowid,
            final(self)@.rows_written == old(self)@.rows_written,
            final(self)@.config == old(self)@.config,
            final(self)@.strategy == old(self)@.strategy,
            forall|o: i32| final(self).hook_slot(o) == old(self).hook_slot(o),
    {
        match outcome {
            Ok(_) => {
                reset_txn_on_db(self);
                Ok(SQLITE_OK)
            },
            Err(f) => Err(f),
        }
    }
}

/// Drops the transaction locally: no request is sent, and the server side
/// is abandoned until its baton expires.
pub fn reset_txn_on_db<H>(db: &mut SQLite3<H>) -> (r: i32)
    ensures
        r == SQLITE_OK,
        final(db).wf(),
        final(db)@.baton is None,
        final(db)@.last_insert_rowid == old(db)@.last_insert_rowid,
        final(db)@.rows_written == old(db)@.rows_written,
        final(db)@.config == old(db)@.config,
        final(db)@.strategy == old(db)@.strategy,
        forall|o: i32| final(db).hook_slot(o) == old(db).hook_slot(o),
{
    db.transaction_has_began = false;
    db.transaction_baton = None;
    SQLITE_OK
}

/// Absorbs the response to a statement into the handle and hands out the
/// result of its first step. A baton handed back is stored, and the handle
/// then counts as inside a transaction, since the baton is what keeps the
/// server-side stream open. An executed result sets `last_insert_rowid`
/// (0 when it does not parse, none when absent) and `rows_written` to what
/// it reports.
pub fn get_execution_result<'a, H>(db: &mut SQLite3<H>, result: &'a RemoteSqliteResponse) -> (r:
    Result<&'a QueryResult, SqliteError>)
    requires
        old(db).wf(),
    ensures
        final(db).wf(),
        final(db)@.has_began == (old(db)@.has_began || result.baton is Some),
        final(db)@.baton == (if result.baton is Some {
            result.baton
        } else {
            old(db)@.baton
        }),
        result.results@.len() == 0 ==> (r matches Err(e) && e.code == SQLITE_ERROR && e.message@
            == "No results returned from remote SQLite"@),
        result.results@.len() > 0 ==> match result.results@[0].response {
            RemoteSQLiteResult::Execute { result: q } => r matches Ok(x) && *x == q
                && final(db)@.last_insert_rowid == rowid_after(q.last_insert_rowid)
                && final(db)@.rows_written == q.rows_written,
            RemoteSQLiteResult::Error { message, code } => r matches Err(e) && e.code == SQLITE_ERROR
                && e.message@ == "Remote SQLite error (code "@ + code@ + "): "@ + message@,
            RemoteSQLiteResult::Close => r matches Err(e) && e.code == SQLITE_ERROR && e.message@
                == "Remote SQLite closed the connection unexpectedly"@,
        },
        r is Err ==> final(db)@.last_insert_rowid == old(db)@.last_insert_rowid
            && final(db)@.rows_written == old(db)@.rows_written,
        absorbed(old(db)@, final(db)@, *result),
        (r is Ok) == (executed_result(*result) is Some),
        final(db)@.config == old(db)@.config,
        final(db)@.strategy == old(db)@.strategy,
        forall|o: i32| final(db).hook_slot(o) == old(db).hook_slot(o),
{
    match &result.baton {
        Some(b) => {
            db.transaction_baton = Some(b.clone());
            db.transaction_has_began = true;
        },
        None => {},
    }
    if result.results.len() == 0 {
        return Err(SqliteError::from_str("No results returned from remote SQLite", SQLITE_ERROR));
    }
    match &result.results[0].response {
        RemoteSQLiteResult::Error { message, code } => {
            let text = String::from_str("Remote SQLite error (code ").concat(code.as_str()).concat(
                "): ",
            ).concat(message.as_str());
            Err(SqliteError { message: text, code: SQLITE_ERROR })
        },
        RemoteSQLiteResult::Close => Err(
            SqliteError::from_str("Remote SQLite closed the connection unexpectedly", SQLITE_ERROR),
        ),
        RemoteSQLiteResult::Execute { result: q } => {
            db.last_insert_rowid = match &q.last_insert_rowid {
                Some(s) => Some(
                    match parse_i64(s.as_str()) {
                        Some(i) => i,
                        None => 0,
                    },
                ),
                None => None,
            };
            db.rows_written = q.rows_written;
            Ok(q)
        },
    }
}

} // verus!
