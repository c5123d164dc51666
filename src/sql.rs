//! Lexical inspection of SQL text: leading keyword, placeholders, the
//! columns of a trivial `SELECT` and the table after `FROM`.
use regex::Regex;
use vstd::prelude::*;
use crate::codes::{SQLITE_DELETE, SQLITE_INSERT, SQLITE_UPDATE};
use vstd::string::StrSliceExecFns;
use crate::text::{
    chars_of, is_space, is_space_char, keyword, skip_from, skip_spaces, word_at, word_at_exec,
};

verus! {

/// A match of `\?\d*|[:@$][a-zA-Z_]\w*` starts at `i`: a `?`, or one of
/// `:`, `@`, `$` followed by a letter or `_`.
pub open spec fn placeholder_at(s: Seq<char>, i: int) -> bool {
    s[i] == '?' || ((s[i] == ':' || s[i] == '@' || s[i] == '$') && i + 1 < s.len()
        && is_ident_start(s[i + 1]))
}

/// The placeholders at or after position `i`.
pub open spec fn placeholders_from(s: Seq<char>, i: int) -> nat
    decreases s.len() - i,
{
    if i < 0 || i >= s.len() {
        0
    } else {
        placeholders_from(s, i + 1) + if placeholder_at(s, i) {
            1nat
        } else {
            0nat
        }
    }
}

/// The number of matches of the placeholder pattern in a text. Neither
/// `\d` nor `\w` matches `?`, `:`, `@` or `$`, so every match starts at a
/// placeholder start and no start is swallowed by an earlier match.
pub open spec fn placeholder_count(sql: Seq<char>) -> nat {
    placeholders_from(sql, 0)
}

/// `[a-zA-Z_]`
pub open spec fn is_ident_start(c: char) -> bool {
    let u = c as u32;
    (65 <= u <= 90) || (97 <= u <= 122) || u == 95
}

/// `[a-zA-Z0-9_]`
pub open spec fn is_ident_char(c: char) -> bool {
    is_ident_start(c) || (48 <= c as u32 <= 57)
}

/// The end of the run of `\s` characters (`is_space`) that starts at `j`.
pub open spec fn space_run_end(s: Seq<char>, j: int) -> int
    decreases s.len() - j,
{
    if j < 0 || j >= s.len() || !is_space(s[j]) {
        j
    } else {
        space_run_end(s, j + 1)
    }
}

/// The end of the run of identifier characters that starts at `j`.
pub open spec fn ident_end(s: Seq<char>, j: int) -> int
    decreases s.len() - j,
{
    if j < 0 || j >= s.len() || !is_ident_char(s[j]) {
        j
    } else {
        ident_end(s, j + 1)
    }
}

/// `FROM\s+[a-zA-Z_]` matches at `i`.
pub open spec fn from_match_at(s: Seq<char>, i: int) -> bool {
    &&& 0 <= i
    &&& i + 4 < s.len()
    &&& s.subrange(i, i + 4) == "FROM"@
    &&& is_space(s[i + 4])
    &&& space_run_end(s, i + 4) < s.len()
    &&& is_ident_start(s[space_run_end(s, i + 4)])
}

/// The leftmost match at or after `i`.
pub open spec fn first_from_match(s: Seq<char>, i: int) -> Option<int>
    decreases s.len() - i,
{
    if i < 0 || i >= s.len() {
        None
    } else if from_match_at(s, i) {
        Some(i)
    } else {
        first_from_match(s, i + 1)
    }
}

/// The identifier captured by `FROM\s+([a-zA-Z_][a-zA-Z0-9_]*)` at its
/// leftmost match: both repetitions are greedy, so the capture starts where
/// the whitespace run ends and takes every identifier character after it.
pub open spec fn table_after_from(sql: Seq<char>) -> Option<Seq<char>> {
    match first_from_match(sql, 0) {
        Some(i) => {
            let j = space_run_end(sql, i + 4);
            Some(sql.subrange(j, ident_end(sql, j)))
        },
        None => None,
    }
}

/// Counts placeholders (anonymous, numbered and named) anywhere in the text.
/// Relies on regex's `Regex::find_iter`: the number of non-overlapping matches.
#[verifier::external_body]
pub fn count_parameters(sql: &str) -> (r: usize)
    ensures
        r == placeholder_count(sql@),
{
    let re = Regex::new(r"\?\d*|[:@$][a-zA-Z_]\w*").unwrap();
    re.find_iter(sql).count()
}

/// Relies on regex's `Regex::captures`: the first capture group of the
/// leftmost match, with `\s` as Unicode `White_Space` (default features).
#[verifier::external_body]
fn table_name_in(sql: &str) -> (r: Option<String>)
    ensures
        match r {
            Some(t) => table_after_from(sql@) == Some(t@),
            None => table_after_from(sql@) is None,
        },
{
    let re = Regex::new(r"FROM\s+([a-zA-Z_][a-zA-Z0-9_]*)").unwrap();
    match re.captures(sql) {
        Some(caps) => match caps.get(1) {
            Some(m) => Some(m.as_str().to_string()),
            None => None,
        },
        None => None,
    }
}

/// The table named after the first `FROM`; best effort.
pub fn extract_table_name(sql: &str) -> (r: Option<String>)
    ensures
        match r {
            Some(t) => table_after_from(sql@) == Some(t@),
            None => table_after_from(sql@) is None,
        },
{
    table_name_in(sql)
}

/// The leading keyword of a statement that is routed before normal execution.
#[derive(PartialEq, Eq, Structural, Clone, Copy, Debug)]
pub enum Keyword {
    Pragma,
    Begin,
    Commit,
    Rollback,
    Other,
}

/// The first non-whitespace token of `s` starts with `w`, ignoring ASCII case.
pub open spec fn leads_with(s: Seq<char>, w: Seq<char>) -> bool {
    word_at(s, skip_from(s, 0), w)
}

pub open spec fn keyword_of(s: Seq<char>) -> Keyword {
    if leads_with(s, "PRAGMA"@) {
        Keyword::Pragma
    } else if leads_with(s, "BEGIN"@) {
        Keyword::Begin
    } else if leads_with(s, "COMMIT"@) {
        Keyword::Commit
    } else if leads_with(s, "ROLLBACK"@) {
        Keyword::Rollback
    } else {
        Keyword::Other
    }
}

fn leads_with_exec(s: &Vec<char>, w: &str) -> (r: bool)
    ensures
        r == leads_with(s@, w@),
{
    let p = skip_spaces(s, 0);
    let k = keyword(w);
    word_at_exec(s, p, &k)
}

/// Classifies the first non-whitespace token, ignoring case; a keyword
/// counts when the token starts with it (`BEGIN TRANSACTION` is `Begin`).
pub fn classify_leading_keyword(sql: &str) -> (r: Keyword)
    ensures
        r == keyword_of(sql@),
{
    let s = chars_of(sql);
    if leads_with_exec(&s, "PRAGMA") {
        Keyword::Pragma
    } else if leads_with_exec(&s, "BEGIN") {
        Keyword::Begin
    } else if leads_with_exec(&s, "COMMIT") {
        Keyword::Commit
    } else if leads_with_exec(&s, "ROLLBACK") {
        Keyword::Rollback
    } else {
        Keyword::Other
    }
}

pub fn sql_is_begin_transaction(sql: &String) -> (r: bool)
    ensures
        r == (keyword_of(sql@) == Keyword::Begin),
{
    classify_leading_keyword(sql.as_str()) == Keyword::Begin
}

pub fn sql_is_pragma(sql: &String) -> (r: bool)
    ensures
        r == (keyword_of(sql@) == Keyword::Pragma),
{
    classify_leading_keyword(sql.as_str()) == Keyword::Pragma
}

pub fn sql_is_rollback(sql: &String) -> (r: bool)
    ensures
        r == (keyword_of(sql@) == Keyword::Rollback),
{
    classify_leading_keyword(sql.as_str()) == Keyword::Rollback
}

pub fn sql_is_commit(sql: &String) -> (r: bool)
    ensures
        r == (keyword_of(sql@) == Keyword::Commit),
{
    classify_leading_keyword(sql.as_str()) == Keyword::Commit
}

/// The hook operation of a write statement, by its leading keyword.
pub open spec fn write_op(s: Seq<char>) -> Option<i32> {
    if leads_with(s, "INSERT"@) {
        Some(SQLITE_INSERT)
    } else if leads_with(s, "UPDATE"@) {
        Some(SQLITE_UPDATE)
    } else if leads_with(s, "DELETE"@) {
        Some(SQLITE_DELETE)
    } else {
        None
    }
}

/// The hook slot that a successful run of `sql` fires, if it is a write.
pub fn write_op_of(sql: &str) -> (r: Option<i32>)
    ensures
        r == write_op(sql@),
{
    let s = chars_of(sql);
    if leads_with_exec(&s, "INSERT") {
        Some(SQLITE_INSERT)
    } else if leads_with_exec(&s, "UPDATE") {
        Some(SQLITE_UPDATE)
    } else if leads_with_exec(&s, "DELETE") {
        Some(SQLITE_DELETE)
    } else {
        None
    }
}

/// What `stmt_isexplain` reports: 2 for `EXPLAIN QUERY PLAN`, 1 for
/// `EXPLAIN`, else 0; words are separated by whitespace, case is ignored.
pub open spec fn explain_kind(s: Seq<char>) -> i32 {
    let p = skip_from(s, 0);
    if word_at(s, p, "EXPLAIN"@) {
        let q = skip_from(s, p + 7);
        let r = skip_from(s, q + 5);
        if word_at(s, q, "QUERY"@) && word_at(s, r, "PLAN"@) {
            2
        } else {
            1
        }
    } else {
        0
    }
}

pub fn stmt_isexplain(sql: &str) -> (r: i32)
    ensures
        r == explain_kind(sql@),
{
    let s = chars_of(sql);
    let n = s.len();
    let p = skip_spaces(&s, 0);
    let explain = keyword("EXPLAIN");
    if !word_at_exec(&s, p, &explain) {
        return 0;
    }
    proof {
        reveal_strlit("EXPLAIN");
        assert(p + 7 <= n);
    }
    let q = skip_spaces(&s, p + 7);
    let query = keyword("QUERY");
    if !word_at_exec(&s, q, &query) {
        return 1;
    }
    proof {
        reveal_strlit("QUERY");
        assert(q + 5 <= n);
    }
    let r = skip_spaces(&s, q + 5);
    let plan = keyword("PLAN");
    if word_at_exec(&s, r, &plan) {
        2
    } else {
        1
    }
}

/// The first position in `[i, j)` that does not hold whitespace, else `j`.
pub open spec fn skip_in(s: Seq<char>, i: int, j: int) -> int
    decreases j - i,
{
    if i >= j {
        j
    } else if is_space(s[i]) {
        skip_in(s, i + 1, j)
    } else {
        i
    }
}

/// The end of `[i, j)` once trailing whitespace is dropped.
pub open spec fn rskip_in(s: Seq<char>, i: int, j: int) -> int
    decreases j - i,
{
    if j <= i {
        i
    } else if is_space(s[j - 1]) {
        rskip_in(s, i, j - 1)
    } else {
        j
    }
}

/// The characters of `[i, j)` without surrounding whitespace.
pub open spec fn trimmed(s: Seq<char>, i: int, j: int) -> Seq<char> {
    let x = skip_in(s, i, j);
    s.subrange(x, rskip_in(s, x, j))
}

/// The trimmed comma-separated items of `[start, b)`, where the current item
/// began at `start` and scanning has reached `k`.
pub open spec fn items_from(s: Seq<char>, start: int, k: int, b: int) -> Seq<Seq<char>>
    decreases b - k,
{
    if k >= b {
        seq![trimmed(s, start, b)]
    } else if s[k] == ',' {
        seq![trimmed(s, start, k)] + items_from(s, k + 1, k + 1, b)
    } else {
        items_from(s, start, k + 1, b)
    }
}

/// `FROM`, in any case, stands at `i` as a word of its own after whitespace.
pub open spec fn from_at(s: Seq<char>, i: int) -> bool {
    i > 0 && is_space(s[i - 1]) && word_at(s, i, "FROM"@) && (i + 4 == s.len() || is_space(
        s[i + 4],
    ))
}

/// The first position at or after `i` where `FROM` stands, else the end.
pub open spec fn list_end(s: Seq<char>, i: int) -> int
    decreases s.len() - i,
{
    if i >= s.len() {
        s.len() as int
    } else if from_at(s, i) {
        i
    } else {
        list_end(s, i + 1)
    }
}

/// The column names of a trivial `SELECT a, b FROM t`: the trimmed items
/// between `SELECT` and `FROM`; none when the text is no `SELECT` or the
/// list is blank.
pub open spec fn column_names_of(s: Seq<char>) -> Seq<Seq<char>> {
    let p = skip_from(s, 0);
    if word_at(s, p, "SELECT"@) {
        let a = p + 6;
        let b = list_end(s, a);
        if skip_in(s, a, b) == b {
            seq![]
        } else {
            items_from(s, a, a, b)
        }
    } else {
        seq![]
    }
}

fn skip_in_exec(s: &Vec<char>, i: usize, j: usize) -> (r: usize)
    requires
        i <= j <= s@.len(),
    ensures
        r == skip_in(s@, i as int, j as int),
        i <= r <= j,
{
    let mut k = i;
    while k < j && is_space_char(s[k])
        invariant
            i <= k <= j <= s@.len(),
            skip_in(s@, i as int, j as int) == skip_in(s@, k as int, j as int),
        decreases j - k,
    {
        k = k + 1;
    }
    k
}

fn rskip_in_exec(s: &Vec<char>, i: usize, j: usize) -> (r: usize)
    requires
        i <= j <= s@.len(),
    ensures
        r == rskip_in(s@, i as int, j as int),
        i <= r <= j,
{
    let mut k = j;
    while k > i && is_space_char(s[k - 1])
        invariant
            i <= k <= j <= s@.len(),
            rskip_in(s@, i as int, j as int) == rskip_in(s@, i as int, k as int),
        decreases k - i,
    {
        k = k - 1;
    }
    k
}

fn trimmed_text(sql: &str, s: &Vec<char>, i: usize, j: usize) -> (r: String)
    requires
        s@ == sql@,
        i <= j <= s@.len(),
    ensures
        r@ == trimmed(s@, i as int, j as int),
{
    let x = skip_in_exec(s, i, j);
    let y = rskip_in_exec(s, x, j);
    String::from_str(sql.substring_char(x, y))
}

fn from_at_exec(s: &Vec<char>, i: usize) -> (r: bool)
    requires
        i <= s@.len(),
    ensures
        r == from_at(s@, i as int),
{
    if i == 0 || !is_space_char(s[i - 1]) {
        return false;
    }
    let from = keyword("FROM");
    if !word_at_exec(s, i, &from) {
        return false;
    }
    proof {
        reveal_strlit("FROM");
    }
    let n = s.len();
    assert(i + 4 <= n);
    i + 4 == n || is_space_char(s[i + 4])
}

fn list_end_exec(s: &Vec<char>, i: usize) -> (r: usize)
    requires
        i <= s@.len(),
    ensures
        r == list_end(s@, i as int),
        i <= r <= s@.len(),
{
    let mut k = i;
    while k < s.len() && !from_at_exec(s, k)
        invariant
            i <= k <= s@.len(),
            list_end(s@, i as int) == list_end(s@, k as int),
        decreases s@.len() - k,
    {
        k = k + 1;
    }
    k
}

/// Infers the column names of a trivial `SELECT ... FROM` statement.
pub fn extract_column_names(sql: &str) -> (r: Vec<String>)
    ensures
        r@.map_values(|n: String| n@) == column_names_of(sql@),
{
    let s = chars_of(sql);
    let n = s.len();
    let p = skip_spaces(&s, 0);
    let select = keyword("SELECT");
    if !word_at_exec(&s, p, &select) {
        let r: Vec<String> = Vec::new();
        assert(r@.map_values(|n: String| n@) =~= Seq::<Seq<char>>::empty());
        return r;
    }
    proof {
        reveal_strlit("SELECT");
        assert(p + 6 <= n);
    }
    let a = p + 6;
    let b = list_end_exec(&s, a);
    if skip_in_exec(&s, a, b) == b {
        let r: Vec<String> = Vec::new();
        assert(r@.map_values(|n: String| n@) =~= Seq::<Seq<char>>::empty());
        return r;
    }
    let mut names: Vec<String> = Vec::new();
    let mut start = a;
    let mut k = a;
    assert(names@.map_values(|n: String| n@) =~= Seq::<Seq<char>>::empty());
    while k < b
        invariant
            s@ == sql@,
            n == s@.len(),
            a <= start <= k <= b <= n,
            names@.map_values(|n: String| n@) + items_from(s@, start as int, k as int, b as int)
                == items_from(s@, a as int, a as int, b as int),
        decreases b - k,
    {
        let ghost before = names@.map_values(|n: String| n@);
        if s[k] == ',' {
            let t = trimmed_text(sql, &s, start, k);
            names.push(t);
            assert(names@.map_values(|n: String| n@) =~= before.push(
                trimmed(s@, start as int, k as int),
            ));
            assert(before + items_from(s@, start as int, k as int, b as int) =~= names@.map_values(
                |n: String| n@,
            ) + items_from(s@, (k + 1) as int, (k + 1) as int, b as int));
            start = k + 1;
        }
        k = k + 1;
    }
    let ghost before = names@.map_values(|n: String| n@);
    let t = trimmed_text(sql, &s, start, b);
    names.push(t);
    assert(names@.map_values(|n: String| n@) =~= before + items_from(
        s@,
        start as int,
        b as int,
        b as int,
    ));
    names
}

} // verus!
