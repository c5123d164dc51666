//! The pipeline protocol as plain data: the requests the library builds and
//! the responses it reads. Turning these into JSON text and back is left to
//! the transport around the library.
use vstd::prelude::*;
use crate::text::same_text;
use crate::value::{decimal, i64_text, parse_i64, parsed_i64, Value};

verus! {

/// The `value` of a statement argument: JSON null, a JSON string, or a real
/// (bit pattern of a double) sent as its decimal text.
pub enum ArgValue {
    Null,
    Text(String),
    Float(u64),
}

/// A statement argument `{type, value}`.
pub struct Arg {
    pub kind: String,
    pub value: ArgValue,
}

/// `a` is the argument that value `v` is sent as.
pub open spec fn arg_of(a: Arg, v: Value) -> bool {
    match v {
        Value::Integer(i) => a.kind@ == "integer"@ && (a.value matches ArgValue::Text(t) && t@
            == decimal(i as int)),
        Value::Real(b) => a.kind@ == "float"@ && a.value == ArgValue::Float(b),
        Value::Text(s) => a.kind@ == "text"@ && a.value == ArgValue::Text(s),
        Value::Null => a.kind@ == "null"@ && a.value == ArgValue::Null,
    }
}

/// Converts a bound value into the argument sent for it.
pub fn to_arg(v: &Value) -> (r: Arg)
    ensures
        arg_of(r, *v),
{
    match v {
        Value::Integer(i) => Arg {
            kind: String::from_str("integer"),
            value: ArgValue::Text(i64_text(*i)),
        },
        Value::Real(b) => Arg { kind: String::from_str("float"), value: ArgValue::Float(*b) },
        Value::Text(s) => Arg { kind: String::from_str("text"), value: ArgValue::Text(s.clone()) },
        Value::Null => Arg { kind: String::from_str("null"), value: ArgValue::Null },
    }
}

/// A statement `{sql, args}`; `args` is left out when `None`.
pub struct SqlStatement {
    pub sql: String,
    pub args: Option<Vec<Arg>>,
}

/// One step of a pipeline request.
pub enum PipelineStep {
    Execute { stmt: SqlStatement },
    Close,
}

/// A pipeline request `{baton?, requests}`.
pub struct PipelineRequest {
    pub baton: Option<String>,
    pub requests: Vec<PipelineStep>,
}

/// `step` executes `sql` with the given arguments.
pub open spec fn executes(step: PipelineStep, sql: Seq<char>, args: Option<Seq<Arg>>) -> bool {
    step matches PipelineStep::Execute { stmt } && stmt.sql@ == sql && match (stmt.args, args) {
        (Some(a), Some(b)) => a@ == b,
        (None, None) => true,
        _ => false,
    }
}

/// Builds the request that executes one statement: inside a transaction it
/// carries the baton; outside one it ends with a `close` step.
pub fn build_pipeline_request(
    sql: &str,
    args: Vec<Arg>,
    baton: Option<&String>,
    is_transacting: bool,
) -> (r: PipelineRequest)
    ensures
        executes(r.requests@[0], sql@, Some(args@)),
        is_transacting ==> r.requests@.len() == 1 && r.baton == match baton {
            Some(b) => Some(*b),
            None => None,
        },
        !is_transacting ==> r.requests@.len() == 2 && r.requests@[1] is Close && r.baton is None,
{
    let ghost a = args@;
    let stmt = SqlStatement { sql: String::from_str(sql), args: Some(args) };
    let mut requests: Vec<PipelineStep> = Vec::new();
    requests.push(PipelineStep::Execute { stmt });
    if is_transacting {
        let baton = match baton {
            Some(b) => Some(b.clone()),
            None => None,
        };
        PipelineRequest { baton, requests }
    } else {
        requests.push(PipelineStep::Close);
        PipelineRequest { baton: None, requests }
    }
}

/// The request that opens a transaction with `sql` (a `BEGIN` variant) and
/// keeps the stream open, so that the server hands back a baton.
pub fn baton_request(sql: &str) -> (r: PipelineRequest)
    ensures
        r.requests@.len() == 1,
        executes(r.requests@[0], sql@, None),
        r.baton is None,
{
    let stmt = SqlStatement { sql: String::from_str(sql), args: None };
    let mut requests: Vec<PipelineStep> = Vec::new();
    requests.push(PipelineStep::Execute { stmt });
    PipelineRequest { baton: None, requests }
}

/// A JSON value in a result cell, as far as decoding looks at it. A number
/// carries its `i64` form when it has one and its double form as bits.
pub enum CellJson {
    Null,
    Bool(bool),
    Str(String),
    Number { integer: Option<i64>, float_bits: u64 },
    Other,
}

/// One cell of a result row `{type, value}`; an absent value is `Null`.
pub struct RemoteRow {
    pub kind: String,
    pub value: CellJson,
}

/// A result column.
pub struct RemoteCol {
    pub name: String,
}

/// The result of an `execute` step.
pub struct QueryResult {
    pub cols: Vec<RemoteCol>,
    pub rows: Vec<Vec<RemoteRow>>,
    pub last_insert_rowid: Option<String>,
    pub rows_written: Option<u64>,
}

/// The response to one step.
pub enum RemoteSQLiteResult {
    Execute { result: QueryResult },
    Error { message: String, code: String },
    Close,
}

pub struct RemoteSQliteResultType {
    pub response: RemoteSQLiteResult,
}

/// A pipeline response `{baton?, results}`.
pub struct RemoteSqliteResponse {
    pub baton: Option<String>,
    pub results: Vec<RemoteSQliteResultType>,
}

/// `v` is the value that cell `c` decodes to, by its advertised type.
pub open spec fn decodes_to(c: RemoteRow, v: Value) -> bool {
    if c.value is Null {
        v is Null
    } else if c.kind@ == "integer"@ {
        v == Value::Integer(
            match c.value {
                CellJson::Str(s) => match parsed_i64(s@) {
                    Some(i) => i,
                    None => 0,
                },
                CellJson::Number { integer, float_bits } => match integer {
                    Some(i) => i,
                    None => 0,
                },
                _ => 0,
            },
        )
    } else if c.kind@ == "float"@ || c.kind@ == "real"@ {
        v == Value::Real(
            match c.value {
                CellJson::Number { integer, float_bits } => float_bits,
                _ => 0,
            },
        )
    } else if c.kind@ == "text"@ {
        v matches Value::Text(t) && t@ == (match c.value {
            CellJson::Str(s) => s@,
            _ => Seq::empty(),
        })
    } else {
        v is Null
    }
}

/// Decodes one result cell.
pub fn decode_cell(c: &RemoteRow) -> (r: Value)
    ensures
        decodes_to(*c, r),
{
    if let CellJson::Null = c.value {
        return Value::Null;
    }
    if same_text(c.kind.as_str(), "integer") {
        let i = match &c.value {
            CellJson::Str(s) => match parse_i64(s.as_str()) {
                Some(i) => i,
                None => 0,
            },
            CellJson::Number { integer, float_bits } => match integer {
                Some(i) => *i,
                None => 0,
            },
            _ => 0,
        };
        Value::Integer(i)
    } else if same_text(c.kind.as_str(), "float") || same_text(c.kind.as_str(), "real") {
        let b = match &c.value {
            CellJson::Number { integer, float_bits } => *float_bits,
            _ => 0,
        };
        Value::Real(b)
    } else if same_text(c.kind.as_str(), "text") {
        match &c.value {
            CellJson::Str(s) => Value::Text(s.clone()),
            _ => Value::Text(String::new()),
        }
    } else {
        Value::Null
    }
}

/// `out` holds the decoded cells of `rows`, row by row.
pub open spec fn rows_decoded(rows: Seq<Vec<RemoteRow>>, out: Seq<Vec<Value>>) -> bool {
    out.len() == rows.len() && forall|i: int|
        #![trigger out[i]]
        0 <= i < rows.len() ==> out[i]@.len() == rows[i]@.len() && forall|j: int|
            0 <= j < rows[i]@.len() ==> decodes_to(rows[i]@[j], out[i]@[j])
}

/// Decodes every cell of every row.
pub fn materialize_rows(rows: &Vec<Vec<RemoteRow>>) -> (r: Vec<Vec<Value>>)
    ensures
        rows_decoded(rows@, r@),
{
    let mut out: Vec<Vec<Value>> = Vec::new();
    let mut i: usize = 0;
    while i < rows.len()
        invariant
            i <= rows@.len(),
            rows_decoded(rows@.subrange(0, i as int), out@),
        decreases rows@.len() - i,
    {
        let row = &rows[i];
        let mut cells: Vec<Value> = Vec::new();
        let mut j: usize = 0;
        while j < row.len()
            invariant
                j <= row@.len(),
                cells@.len() == j,
                forall|k: int| 0 <= k < j ==> decodes_to(row@[k], cells@[k]),
            decreases row@.len() - j,
        {
            let v = decode_cell(&row[j]);
            cells.push(v);
            j = j + 1;
        }
        out.push(cells);
        i = i + 1;
        assert(rows@.subrange(0, i as int) =~= rows@.subrange(0, i - 1).push(rows@[i - 1]));
    }
    assert(rows@.subrange(0, i as int) =~= rows@);
    out
}

/// The names of the result columns, in order.
pub fn column_names_from(cols: &Vec<RemoteCol>) -> (r: Vec<String>)
    ensures
        r@.len() == cols@.len(),
        forall|i: int| 0 <= i < cols@.len() ==> r@[i] == cols@[i].name,
{
    let mut out: Vec<String> = Vec::new();
    let mut i: usize = 0;
    while i < cols.len()
        invariant
            i <= cols@.len(),
            out@.len() == i,
            forall|k: int| 0 <= k < i ==> out@[k] == cols@[k].name,
        decreases cols@.len() - i,
    {
        out.push(cols[i].name.clone());
        i = i + 1;
    }
    out
}

} // verus!
